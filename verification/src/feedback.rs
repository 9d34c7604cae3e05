//! Novelty of a run, judged by the signature of its last instruction.
//!
//! The signature of a run is its last opcode together with the type tags of the
//! two topmost stack entries. It stands in for "a new code path was taken" where
//! no coverage is measured. One set of signatures is kept for both machines.
pub mod go_cover;

use crate::output::{parse, parsed, Output, OutputView};
use vstd::prelude::*;

verus! {

/// The signature of one run.
#[derive(Debug)]
pub struct TypeState {
    /// The last opcode.
    pub opcode: u8,
    /// The type tag of the first stack entry.
    pub fst_type: String,
    /// The type tag of the second stack entry, empty where the stack has one entry.
    pub snd_type: String,
}

/// A [`TypeState`] as contracts see it.
pub struct TypeStateView {
    pub opcode: u8,
    pub fst_type: Seq<char>,
    pub snd_type: Seq<char>,
}

impl View for TypeState {
    type V = TypeStateView;

    open spec fn view(&self) -> TypeStateView {
        TypeStateView { opcode: self.opcode, fst_type: self.fst_type@, snd_type: self.snd_type@ }
    }
}

impl PartialEq for TypeState {
    fn eq(&self, other: &Self) -> (r: bool) {
        self.opcode == other.opcode && self.fst_type == other.fst_type && self.snd_type
            == other.snd_type
    }
}

impl vstd::std_specs::cmp::PartialEqSpecImpl for TypeState {
    open spec fn obeys_eq_spec() -> bool {
        true
    }

    open spec fn eq_spec(&self, other: &Self) -> bool {
        self@ == other@
    }
}

/// The signature of an output: none for an empty stack, else the last opcode
/// with the tags of the first two stack entries. Entries below the second do
/// not count.
pub open spec fn signature(out: OutputView) -> Option<TypeStateView> {
    if out.estack.len() == 0 {
        None
    } else {
        Some(
            TypeStateView {
                opcode: out.lastop,
                fst_type: out.estack[0].itype,
                snd_type: if out.estack.len() >= 2 {
                    out.estack[1].itype
                } else {
                    Seq::empty()
                },
            },
        )
    }
}

/// The signatures seen once `out` is added to `seen`.
pub open spec fn seen_after(seen: Set<TypeStateView>, out: OutputView) -> Set<TypeStateView> {
    match signature(out) {
        Some(key) => seen.insert(key),
        None => seen,
    }
}

/// Whether `out` has a signature that is not in `seen`.
pub open spec fn is_new(seen: Set<TypeStateView>, out: OutputView) -> bool {
    match signature(out) {
        Some(key) => !seen.contains(key),
        None => false,
    }
}

/// The same output handed in twice: the second time it is not new and leaves
/// the set as it is. The first time it is new exactly if it has a signature
/// that was not seen before.
pub proof fn resubmission_is_not_new(seen: Set<TypeStateView>, out: OutputView)
    ensures
        !is_new(seen_after(seen, out), out),
        seen_after(seen_after(seen, out), out) == seen_after(seen, out),
        is_new(seen, out) <==> signature(out) is Some && !seen.contains(signature(out)->0),
        is_new(Set::empty(), out) <==> out.estack.len() > 0,
{
    assert(seen_after(seen_after(seen, out), out) =~= seen_after(seen, out));
}

/// Computes the signature of an output.
pub fn type_state(out: &Output) -> (r: Option<TypeState>)
    ensures
        r is Some <==> signature(out@) is Some,
        r is Some ==> r->0@ == signature(out@)->0,
{
    if out.estack.len() == 0 {
        None
    } else if out.estack.len() == 1 {
        Some(
            TypeState {
                opcode: out.lastop,
                fst_type: out.estack[0].itype.clone(),
                snd_type: String::new(),
            },
        )
    } else {
        Some(
            TypeState {
                opcode: out.lastop,
                fst_type: out.estack[0].itype.clone(),
                snd_type: out.estack[1].itype.clone(),
            },
        )
    }
}

/// The signature that a captured stream adds: that of its output, if it has one.
pub open spec fn contribution(data: Seq<u8>) -> Option<TypeStateView> {
    match parsed(data) {
        Some(out) => signature(out),
        None => None,
    }
}

/// The signatures that the first `n` of the streams add.
pub open spec fn contributions(outs: Seq<Option<Vec<u8>>>, n: int) -> Set<TypeStateView> {
    Set::new(
        |key: TypeStateView|
            exists|i: int|
                0 <= i < n && outs[i] is Some && #[trigger] contribution(outs[i]->0@) == Some(key),
    )
}

/// One more stream adds its signature, if it has one, to those of the streams
/// before it.
proof fn lemma_contributions_grow(outs: Seq<Option<Vec<u8>>>, n: int)
    requires
        0 <= n < outs.len(),
        outs[n] is Some,
    ensures
        contributions(outs, n + 1) == match contribution(outs[n]->0@) {
            Some(key) => contributions(outs, n).insert(key),
            None => contributions(outs, n),
        },
{
    let more = contributions(outs, n + 1);
    let fewer = contributions(outs, n);
    let step = contribution(outs[n]->0@);
    assert forall|k: TypeStateView| more.contains(k) <==> (fewer.contains(k) || step == Some(
        k,
    )) by {
        if more.contains(k) {
            let w = choose|w: int|
                0 <= w < n + 1 && outs[w] is Some && #[trigger] contribution(outs[w]->0@) == Some(k);
            if w < n {
                assert(fewer.contains(k));
            }
        }
        if fewer.contains(k) {
            let w = choose|w: int|
                0 <= w < n && outs[w] is Some && #[trigger] contribution(outs[w]->0@) == Some(k);
            assert(more.contains(k));
        }
    }
    match step {
        Some(key) => {
            assert(more =~= fewer.insert(key));
        },
        None => {
            assert(more =~= fewer);
        },
    }
}

/// A machine printed nothing at all: the stream at this position was not
/// captured. Every machine is expected to print, so this is a fault of the
/// environment and not a finding.
#[derive(Clone, Copy, Debug, PartialEq, Eq, Structural)]
pub struct NoOutput {
    pub observer: usize,
}

/// The set of signatures seen in a session.
pub struct TypeStateFeedback {
    states: Vec<TypeState>,
}

/// The signatures of a list of entries, in order.
pub open spec fn keys_of(states: Seq<TypeState>) -> Seq<TypeStateView> {
    Seq::new(states.len(), |i: int| states[i]@)
}

impl TypeStateFeedback {
    #[verifier::type_invariant]
    spec fn distinct(&self) -> bool {
        keys_of(self.states@).no_duplicates()
    }

    /// The signatures seen so far.
    pub closed spec fn view(&self) -> Set<TypeStateView> {
        keys_of(self.states@).to_set()
    }

    /// A tracker that has seen nothing.
    pub fn new() -> (r: TypeStateFeedback)
        ensures
            r@ == Set::<TypeStateView>::empty(),
    {
        let r = TypeStateFeedback { states: Vec::new() };
        assert(r@ =~= Set::<TypeStateView>::empty());
        r
    }

    /// Whether a signature has been seen.
    pub fn contains(&self, key: &TypeState) -> (r: bool)
        ensures
            r == self@.contains(key@),
    {
        let mut i: usize = 0;
        while i < self.states.len()
            invariant
                i <= self.states.len(),
                forall|j: int| 0 <= j < i ==> (#[trigger] keys_of(self.states@)[j]) != key@,
            decreases self.states.len() - i,
        {
            if self.states[i] == *key {
                assert(keys_of(self.states@)[i as int] == key@);
                return true;
            }
            i += 1;
        }
        false
    }

    /// The number of signatures seen.
    pub fn len(&self) -> (r: usize)
        ensures
            r == self@.len(),
    {
        proof {
            use_type_invariant(self);
            keys_of(self.states@).unique_seq_to_set();
        }
        self.states.len()
    }

    /// Adds a signature. Returns whether it was not there before.
    pub fn insert(&mut self, key: TypeState) -> (r: bool)
        ensures
            final(self)@ == old(self)@.insert(key@),
            r == !old(self)@.contains(key@),
            old(self)@.subset_of(final(self)@),
    {
        if self.contains(&key) {
            assert(self@ =~= self@.insert(key@));
            false
        } else {
            proof {
                use_type_invariant(&*self);
            }
            let mut taken = TypeStateFeedback { states: Vec::new() };
            core::mem::swap(self, &mut taken);
            let TypeStateFeedback { states: mut states } = taken;
            let ghost before = keys_of(states@);
            let ghost added = key@;
            states.push(key);
            proof {
                assert(keys_of(states@) =~= before.push(added));
                assert(!before.contains(added));
                before.lemma_push_to_set_commute(added);
            }
            *self = TypeStateFeedback { states };
            true
        }
    }

    /// Hands in one output. Returns whether it is new, that is, whether it has
    /// a signature that was not seen before; the signature counts as seen
    /// from now on.
    pub fn observe(&mut self, out: &Output) -> (r: bool)
        ensures
            final(self)@ == seen_after(old(self)@, out@),
            r == is_new(old(self)@, out@),
            old(self)@.subset_of(final(self)@),
    {
        match type_state(out) {
            Some(key) => self.insert(key),
            None => false,
        }
    }

    /// Hands in what the machines printed in one run, one stream for each.
    ///
    /// Returns whether any of them is new. A stream that is no output adds
    /// nothing and does not keep the others from counting. A stream that was not
    /// captured ends the work: the streams before it have counted, the error
    /// names its position.
    pub fn is_interesting(&mut self, outputs: &Vec<Option<Vec<u8>>>) -> (r: Result<bool, NoOutput>)
        ensures
            old(self)@.subset_of(final(self)@),
            match r {
                Ok(new_state_found) => {
                    &&& forall|i: int| 0 <= i < outputs@.len() ==> outputs@[i] is Some
                    &&& final(self)@ == old(self)@.union(contributions(outputs@, outputs@.len() as int))
                    &&& new_state_found == !contributions(
                        outputs@,
                        outputs@.len() as int,
                    ).subset_of(old(self)@)
                },
                Err(e) => {
                    &&& e.observer < outputs@.len()
                    &&& outputs@[e.observer as int] is None
                    &&& forall|i: int| 0 <= i < e.observer ==> outputs@[i] is Some
                    &&& final(self)@ == old(self)@.union(contributions(outputs@, e.observer as int))
                },
            },
    {
        let mut new_state_found = false;
        let mut i: usize = 0;
        assert(self@ =~= old(self)@.union(contributions(outputs@, 0)));
        while i < outputs.len()
            invariant
                i <= outputs.len(),
                forall|j: int| 0 <= j < i ==> outputs@[j] is Some,
                self@ == old(self)@.union(contributions(outputs@, i as int)),
                new_state_found == !contributions(outputs@, i as int).subset_of(old(self)@),
            decreases outputs.len() - i,
        {
            let ghost before = self@;
            match &outputs[i] {
                None => {
                    return Err(NoOutput { observer: i });
                },
                Some(data) => {
                    let mut added = false;
                    match parse(data) {
                        Some(out) => {
                            added = self.observe(&out);
                        },
                        None => {},
                    }
                    proof {
                        lemma_contributions_grow(outputs@, i as int);
                        let step = contribution(data@);
                        let then = contributions(outputs@, i as int);
                        let now = contributions(outputs@, i + 1);
                        assert(self@ =~= old(self)@.union(now));
                        if added {
                            assert(now.contains(step->0) && !old(self)@.contains(step->0));
                        } else if new_state_found {
                            let k = choose|k: TypeStateView|
                                then.contains(k) && !old(self)@.contains(k);
                            assert(now.contains(k));
                        } else if step is Some {
                            assert(before.contains(step->0));
                        }
                    }
                    if added {
                        new_state_found = true;
                    }
                },
            }
            i += 1;
        }
        Ok(new_state_found)
    }
}

} // verus!
