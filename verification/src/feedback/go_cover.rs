//! Novelty of a run, judged by the source locations it covered.
use crate::report::texts;
use vstd::hash_set::StringHashSet;
use vstd::prelude::*;

verus! {

/// The source locations covered in a session.
pub struct GoCoverFeedback {
    all_coverage: StringHashSet,
}

impl GoCoverFeedback {
    /// The locations covered so far.
    pub closed spec fn view(&self) -> Set<Seq<char>> {
        self.all_coverage@
    }

    /// A tracker that has seen nothing.
    pub fn new() -> (r: GoCoverFeedback)
        ensures
            r@ == Set::<Seq<char>>::empty(),
    {
        GoCoverFeedback { all_coverage: StringHashSet::new() }
    }

    /// Whether a location has been covered.
    pub fn contains(&self, location: &str) -> (r: bool)
        ensures
            r == self@.contains(location@),
    {
        self.all_coverage.contains(location)
    }

    /// The number of locations covered.
    pub fn len(&self) -> (r: usize)
        ensures
            r == self@.len(),
    {
        self.all_coverage.len()
    }

    /// Takes in the locations that one run covered, as the observer of that
    /// run lists them. Returns whether the run covered a location that no
    /// earlier run had covered; its locations count as covered from now on.
    pub fn is_interesting(&mut self, coverage: &Vec<String>) -> (r: bool)
        ensures
            final(self)@ == old(self)@.union(texts(coverage@).to_set()),
            r == !texts(coverage@).to_set().subset_of(old(self)@),
            old(self)@.subset_of(final(self)@),
    {
        let mut found = false;
        let mut i: usize = 0;
        let ghost run = texts(coverage@);
        assert(self@ =~= old(self)@.union(run.take(0).to_set()));
        while i < coverage.len()
            invariant
                i <= coverage@.len(),
                run == texts(coverage@),
                self@ == old(self)@.union(run.take(i as int).to_set()),
                found == !run.take(i as int).to_set().subset_of(old(self)@),
            decreases coverage@.len() - i,
        {
            let location = &coverage[i];
            let ghost before = self@;
            proof {
                assert(run.take(i + 1) =~= run.take(i as int).push(location@));
                run.take(i as int).lemma_push_to_set_commute(location@);
            }
            if self.all_coverage.insert(location.clone()) {
                assert(!old(self)@.contains(location@));
                assert(run.take(i + 1).to_set().contains(location@));
                found = true;
            } else {
                proof {
                    if !found {
                        assert(before.contains(location@));
                        if !old(self)@.contains(location@) {
                            assert(run.take(i as int).to_set().contains(location@));
                        }
                    } else {
                        let k = choose|k: Seq<char>|
                            run.take(i as int).to_set().contains(k) && !old(self)@.contains(k);
                        assert(run.take(i + 1).to_set().contains(k));
                    }
                }
            }
            assert(self@ =~= old(self)@.union(run.take(i + 1).to_set()));
            i += 1;
        }
        assert(run.take(i as int) =~= run);
        found
    }
}

} // verus!
