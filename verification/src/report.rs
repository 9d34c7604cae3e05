//! The text report of one run's coverage.
//!
//! The report has one line for each block of statements:
//!
//! ```text
//! mode: set
//! vm/stack.go:10.2,12.3 2 1
//! vm/stack.go:14.2,14.9 1 0
//! ```
//!
//! A line that begins with `mode` is a header. Every other line holds three
//! fields or more, with one space between them: the location, the number of
//! statements there, and how often they ran. A location counts as covered where
//! a line gives it a count above zero. One line that cannot be read makes the
//! whole report unreadable: the tool that writes it is expected to work.
use vstd::hash_set::StringHashSet;
use vstd::prelude::*;
use vstd::slice::slice_subrange;

verus! {

/// Where `c` first occurs in `s` at or after `from`; the length of `s` where it
/// does not occur there.
pub open spec fn find(s: Seq<char>, from: int, c: char) -> int
    decreases s.len() - from,
{
    if from < 0 || from >= s.len() {
        s.len() as int
    } else if s[from] == c {
        from
    } else {
        find(s, from + 1, c)
    }
}

/// [`find`] returns the first occurrence at or after `from`.
pub proof fn lemma_find(s: Seq<char>, from: int, c: char)
    requires
        0 <= from <= s.len(),
    ensures
        from <= find(s, from, c) <= s.len(),
        find(s, from, c) < s.len() ==> s[find(s, from, c)] == c,
        forall|i: int| from <= i < find(s, from, c) ==> s[i] != c,
    decreases s.len() - from,
{
    if from < s.len() && s[from] != c {
        lemma_find(s, from + 1, c);
    }
}

/// Finds the first `c` in `s` at or after `from`.
pub fn find_char(s: &[char], from: usize, c: char) -> (r: usize)
    requires
        from <= s@.len(),
    ensures
        r == find(s@, from as int, c),
        from <= r <= s@.len(),
{
    let mut i: usize = from;
    while i < s.len() && s[i] != c
        invariant
            from <= i <= s@.len(),
            find(s@, from as int, c) == find(s@, i as int, c),
        decreases s@.len() - i,
    {
        i += 1;
    }
    i
}

/// Whether `c` is one of the digits `0` to `9`.
pub open spec fn is_digit(c: char) -> bool {
    48 <= c as u32 <= 57
}

/// Whether `s` holds digits only.
pub open spec fn all_digits(s: Seq<char>) -> bool {
    forall|i: int| 0 <= i < s.len() ==> is_digit(#[trigger] s[i])
}

/// The number that the digits `s` write in base ten.
pub open spec fn decimal(s: Seq<char>) -> int
    decreases s.len(),
{
    if s.len() == 0 {
        0
    } else {
        decimal(s.drop_last()) * 10 + (s.last() as u32 - 48)
    }
}

/// The number that `s` writes, as the count of a report line is read: an
/// optional sign, then one digit or more, and a value that fits in `i32`.
pub open spec fn number(s: Seq<char>) -> Option<int> {
    let signed = s.len() > 0 && (s[0] == '+' || s[0] == '-');
    let digits = if signed {
        s.drop_first()
    } else {
        s
    };
    let value = if s.len() > 0 && s[0] == '-' {
        -decimal(digits)
    } else {
        decimal(digits)
    };
    if digits.len() > 0 && all_digits(digits) && i32::MIN <= value <= i32::MAX {
        Some(value)
    } else {
        None
    }
}

/// Digits written behind a number do not make it smaller.
proof fn lemma_decimal_grows(s: Seq<char>, k: int)
    requires
        all_digits(s),
        0 <= k <= s.len(),
    ensures
        0 <= decimal(s.take(k)) <= decimal(s),
    decreases s.len() - k,
{
    if k == s.len() {
        assert(s.take(k) =~= s);
        lemma_decimal_positive(s);
    } else {
        lemma_decimal_grows(s, k + 1);
        assert(s.take(k + 1).drop_last() =~= s.take(k));
        assert(is_digit(s[k]));
        lemma_decimal_positive(s.take(k));
    }
}

/// Digits write no negative number.
proof fn lemma_decimal_positive(s: Seq<char>)
    requires
        all_digits(s),
    ensures
        0 <= decimal(s),
    decreases s.len(),
{
    if s.len() > 0 {
        assert(is_digit(s[s.len() - 1]));
        lemma_decimal_positive(s.drop_last());
    }
}

/// Reads a count.
pub fn read_number(s: &[char]) -> (r: Option<i32>)
    ensures
        r is Some <==> number(s@) is Some,
        r is Some ==> r->0 == number(s@)->0,
{
    if s.len() == 0 {
        return None;
    }
    let negative = s[0] == '-';
    let start: usize = if s[0] == '+' || s[0] == '-' {
        1
    } else {
        0
    };
    let ghost digits = s@.subrange(start as int, s@.len() as int);
    assert(digits =~= if start == 1 {
        s@.drop_first()
    } else {
        s@
    });
    if start == s.len() {
        return None;
    }
    let mut acc: i64 = 0;
    let mut i: usize = start;
    assert(digits.take(0) =~= Seq::<char>::empty());
    while i < s.len()
        invariant
            start <= i <= s@.len(),
            s@.len() > 0,
            negative == (s@[0] == '-'),
            digits == if s@[0] == '+' || s@[0] == '-' {
                s@.drop_first()
            } else {
                s@
            },
            digits == s@.subrange(start as int, s@.len() as int),
            all_digits(digits.take(i - start)),
            acc == decimal(digits.take(i - start)),
            0 <= acc <= 2147483648,
        decreases s@.len() - i,
    {
        let c = s[i];
        let code: u32 = c as u32;
        assert(digits[i - start] == c);
        if code < 48 || code > 57 {
            assert(!is_digit(digits[i - start]));
            return None;
        }
        let d: i64 = (code - 48) as i64;
        acc = acc * 10 + d;
        proof {
            assert(digits.take(i - start + 1).drop_last() =~= digits.take(i - start));
            assert(digits.take(i - start + 1).last() == c);
            assert forall|j: int| 0 <= j < i - start + 1 implies is_digit(
                #[trigger] digits.take(i - start + 1)[j],
            ) by {
                if j < i - start {
                    assert(digits.take(i - start)[j] == digits[j]);
                }
            }
        }
        if acc > 2147483648 {
            proof {
                if all_digits(digits) {
                    lemma_decimal_grows(digits, i - start + 1);
                }
            }
            return None;
        }
        i += 1;
    }
    assert(digits.take(i - start) =~= digits);
    if negative {
        Some((-acc) as i32)
    } else if acc <= 2147483647 {
        Some(acc as i32)
    } else {
        None
    }
}

/// The four letters with which a header line begins.
pub open spec fn header_marker() -> Seq<char> {
    seq!['m', 'o', 'd', 'e']
}

/// Whether a line is a header.
pub open spec fn is_header(line: Seq<char>) -> bool {
    line.len() >= 4 && line.subrange(0, 4) == header_marker()
}

/// What one line of a report says.
pub enum Line {
    /// Nothing: the line is a header.
    Header,
    /// The statements at `location` ran `hits` times.
    Entry { location: Seq<char>, hits: int },
    /// The line cannot be read.
    Malformed,
}

/// Reads one line. A line that is no header has to hold three fields, of which
/// the first is the location and the third the count; fields behind the third
/// are ignored, and so is what the second holds.
pub open spec fn entry(line: Seq<char>) -> Line {
    let a = find(line, 0, ' ');
    let b = find(line, a + 1, ' ');
    let c = find(line, b + 1, ' ');
    if is_header(line) {
        Line::Header
    } else if b >= line.len() {
        Line::Malformed
    } else {
        match number(line.subrange(b + 1, c)) {
            Some(hits) => Line::Entry { location: line.subrange(0, a), hits },
            None => Line::Malformed,
        }
    }
}

/// The line of `s` that starts at `from` and ends before the line feed at `end`,
/// or at the end of `s`. A carriage return before the line feed is no part of
/// the line.
pub open spec fn line_between(s: Seq<char>, from: int, end: int) -> Seq<char> {
    if end < s.len() && from < end && s[end - 1] == '\r' {
        s.subrange(from, end - 1)
    } else {
        s.subrange(from, end)
    }
}

/// The locations that the lines of `s` from position `from` on report as
/// covered; `None` where one of these lines cannot be read.
pub open spec fn hits_from(s: Seq<char>, from: int) -> Option<Set<Seq<char>>>
    decreases s.len() + 1 - from,
    via hits_from_decreases
{
    if from < 0 || from >= s.len() {
        Some(Set::empty())
    } else {
        let end = find(s, from, '\n');
        match (entry(line_between(s, from, end)), hits_from(s, end + 1)) {
            (Line::Malformed, _) => None,
            (_, None) => None,
            (Line::Header, Some(rest)) => Some(rest),
            (Line::Entry { location, hits }, Some(rest)) => Some(
                if hits > 0 {
                    rest.insert(location)
                } else {
                    rest
                },
            ),
        }
    }
}

#[via_fn]
proof fn hits_from_decreases(s: Seq<char>, from: int) {
    if 0 <= from < s.len() {
        lemma_find(s, from, '\n');
    }
}

/// The locations that a report gives as covered; `None` where the report
/// cannot be read.
pub open spec fn report_hits(report: Seq<char>) -> Option<Set<Seq<char>>> {
    hits_from(report, 0)
}

/// A coverage report that cannot be read.
#[derive(Clone, Copy, Debug, PartialEq, Eq, Structural)]
pub struct BadReport {}

/// Calls `String::from_iter` on the characters of `chars`. The text holds these
/// characters, in their order.
#[verifier::external_body]
pub(crate) fn text_of(chars: &[char]) -> (r: String)
    ensures
        r@ == chars@,
{
    String::from_iter(chars.iter())
}

/// The characters of a text.
pub fn chars_of(text: &str) -> (r: Vec<char>)
    ensures
        r@ == text@,
{
    let mut out: Vec<char> = Vec::new();
    for c in it: text.chars()
        invariant
            it.seq() == text@,
            out@ == it.seq().take(it.index() as int),
    {
        out.push(c);
        assert(it.seq().take(it.index() + 1) =~= it.seq().take(it.index() as int).push(c));
    }
    assert(out@ =~= text@);
    out
}

/// Reads one line of a report. Returns the location where the line reports it
/// as covered, and nothing for a header or a count of zero or below.
pub fn read_line(line: &[char]) -> (r: Result<Option<String>, BadReport>)
    ensures
        match entry(line@) {
            Line::Header => r is Ok && r->Ok_0 is None,
            Line::Entry { location, hits } => if hits > 0 {
                r is Ok && r->Ok_0 is Some && r->Ok_0->0@ == location
            } else {
                r is Ok && r->Ok_0 is None
            },
            Line::Malformed => r is Err,
        },
{
    if line.len() >= 4 && line[0] == 'm' && line[1] == 'o' && line[2] == 'd' && line[3] == 'e' {
        assert(line@.subrange(0, 4) =~= header_marker());
        return Ok(None);
    }
    proof {
        if is_header(line@) {
            assert(line@.subrange(0, 4)[0] == 'm');
            assert(line@.subrange(0, 4)[1] == 'o');
            assert(line@.subrange(0, 4)[2] == 'd');
            assert(line@.subrange(0, 4)[3] == 'e');
        }
    }
    let a = find_char(line, 0, ' ');
    if a >= line.len() {
        return Err(BadReport {  });
    }
    let b = find_char(line, a + 1, ' ');
    if b >= line.len() {
        return Err(BadReport {  });
    }
    let c = find_char(line, b + 1, ' ');
    match read_number(slice_subrange(line, b + 1, c)) {
        None => Err(BadReport {  }),
        Some(hits) => if hits > 0 {
            Ok(Some(text_of(slice_subrange(line, 0, a))))
        } else {
            Ok(None)
        },
    }
}

/// The texts of a list, in order.
pub open spec fn texts(found: Seq<String>) -> Seq<Seq<char>> {
    Seq::new(found.len(), |i: int| found[i]@)
}

/// Reads a report. Returns the locations that it gives as covered, each once.
pub fn read_report(report: &str) -> (r: Result<Vec<String>, BadReport>)
    ensures
        r is Ok <==> report_hits(report@) is Some,
        r is Ok ==> texts(r->Ok_0@).to_set() == report_hits(report@)->0,
        r is Ok ==> texts(r->Ok_0@).no_duplicates(),
{
    let chars = chars_of(report);
    let s = chars.as_slice();
    let mut seen = StringHashSet::new();
    let mut found: Vec<String> = Vec::new();
    let mut pos: usize = 0;
    assert(texts(found@).to_set() =~= Set::<Seq<char>>::empty());
    while pos < s.len()
        invariant
            pos <= s@.len(),
            s@ == report@,
            seen@ == texts(found@).to_set(),
            texts(found@).no_duplicates(),
            match hits_from(s@, pos as int) {
                Some(rest) => hits_from(s@, 0) == Some(seen@.union(rest)),
                None => hits_from(s@, 0) is None,
            },
        decreases s@.len() - pos,
    {
        let end = find_char(s, pos, '\n');
        let stop = if end < s.len() && pos < end && s[end - 1] == '\r' {
            end - 1
        } else {
            end
        };
        let ghost rest_before = hits_from(s@, pos as int);
        let ghost rest_after = hits_from(s@, end + 1);
        let ghost seen_before = seen@;
        match read_line(slice_subrange(s, pos, stop)) {
            Err(e) => {
                return Err(e);
            },
            Ok(None) => {},
            Ok(Some(location)) => {
                if !seen.contains(location.as_str()) {
                    let ghost before = texts(found@);
                    let ghost added = location@;
                    seen.insert(location.clone());
                    found.push(location);
                    proof {
                        assert(texts(found@) =~= before.push(added));
                        assert(!before.contains(added));
                        before.lemma_push_to_set_commute(added);
                    }
                } else {
                    assert(seen@ =~= seen@.insert(location@));
                }
            },
        }
        proof {
            if rest_after is Some {
                match entry(line_between(s@, pos as int, end as int)) {
                    Line::Entry { location, hits } => {
                        if hits > 0 {
                            assert(seen@ == seen_before.insert(location));
                            assert(seen@.union(rest_after->0) =~= seen_before.union(
                                rest_after->0.insert(location),
                            ));
                        }
                    },
                    _ => {},
                }
            }
        }
        pos = if end < s.len() {
            end + 1
        } else {
            end
        };
    }
    assert(seen@.union(Set::<Seq<char>>::empty()) =~= seen@);
    Ok(found)
}

} // verus!
