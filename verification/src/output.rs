//! What one virtual machine reports of one run.
use crate::json::{
    duplicate, elements, json_document, json_elements, json_member, json_same, json_text,
    json_unsigned, member, read_document, same, text, unsigned,
};
use serde_json::Value;
use vstd::prelude::*;

verus! {

/// One entry of an evaluation stack.
#[derive(Debug)]
pub struct StackItem {
    /// The entry's type tag.
    pub itype: String,
    /// The entry's value, of any JSON shape.
    pub ivalue: Value,
}

/// The outcome of one run.
#[derive(Debug)]
pub struct Output {
    /// How the run ended. `"VM halted"` is what a normal end reads.
    pub status: String,
    /// The machine's error message.
    pub errmsg: String,
    /// The last instruction executed.
    pub lastop: u8,
    /// The evaluation stack at the end of the run.
    pub estack: Vec<StackItem>,
}

/// A [`StackItem`] as contracts see it.
pub struct StackItemView {
    pub itype: Seq<char>,
    pub ivalue: Value,
}

/// An [`Output`] as contracts see it.
pub struct OutputView {
    pub status: Seq<char>,
    pub errmsg: Seq<char>,
    pub lastop: u8,
    pub estack: Seq<StackItemView>,
}

impl View for StackItem {
    type V = StackItemView;

    open spec fn view(&self) -> StackItemView {
        StackItemView { itype: self.itype@, ivalue: self.ivalue }
    }
}

impl View for Output {
    type V = OutputView;

    open spec fn view(&self) -> OutputView {
        OutputView {
            status: self.status@,
            errmsg: self.errmsg@,
            lastop: self.lastop,
            estack: stack_view(self.estack@),
        }
    }
}

impl Clone for StackItem {
    fn clone(&self) -> (r: Self)
        ensures
            r@ == self@,
    {
        StackItem { itype: self.itype.clone(), ivalue: duplicate(&self.ivalue) }
    }
}

impl Clone for Output {
    fn clone(&self) -> (r: Self)
        ensures
            r@ == self@,
    {
        let mut estack: Vec<StackItem> = Vec::new();
        let mut i: usize = 0;
        while i < self.estack.len()
            invariant
                i <= self.estack.len(),
                estack@.len() == i,
                forall|j: int| 0 <= j < i ==> (#[trigger] estack@[j])@ == self.estack@[j]@,
            decreases self.estack.len() - i,
        {
            estack.push(self.estack[i].clone());
            i += 1;
        }
        assert(stack_view(estack@) =~= stack_view(self.estack@));
        Output {
            status: self.status.clone(),
            errmsg: self.errmsg.clone(),
            lastop: self.lastop,
            estack,
        }
    }
}

impl PartialEq for StackItem {
    fn eq(&self, other: &Self) -> (r: bool) {
        self.itype == other.itype && same(&self.ivalue, &other.ivalue)
    }
}

impl vstd::std_specs::cmp::PartialEqSpecImpl for StackItem {
    open spec fn obeys_eq_spec() -> bool {
        true
    }

    open spec fn eq_spec(&self, other: &Self) -> bool {
        same_item(self@, other@)
    }
}

/// Whether two stack entries are equal: the same type tag, and values that
/// `serde_json` finds equal.
pub open spec fn same_item(a: StackItemView, b: StackItemView) -> bool {
    a.itype == b.itype && json_same(a.ivalue, b.ivalue)
}

/// Whether two stacks are equal: the same number of entries, and equal entries
/// at each position.
pub open spec fn same_stack(a: Seq<StackItemView>, b: Seq<StackItemView>) -> bool {
    &&& a.len() == b.len()
    &&& forall|i: int| 0 <= i < a.len() ==> same_item(#[trigger] a[i], b[i])
}

/// Compares two stacks entry by entry.
pub fn stacks_equal(a: &Vec<StackItem>, b: &Vec<StackItem>) -> (r: bool)
    ensures
        r == same_stack(stack_view(a@), stack_view(b@)),
{
    if a.len() != b.len() {
        return false;
    }
    let mut i: usize = 0;
    while i < a.len()
        invariant
            i <= a.len(),
            a.len() == b.len(),
            forall|j: int| 0 <= j < i ==> same_item(#[trigger] stack_view(a@)[j], stack_view(b@)[j]),
        decreases a.len() - i,
    {
        if !(a[i] == b[i]) {
            assert(!same_item(stack_view(a@)[i as int], stack_view(b@)[i as int]));
            return false;
        }
        i += 1;
    }
    true
}

/// The entries of a stack, each by its view.
pub open spec fn stack_view(items: Seq<StackItem>) -> Seq<StackItemView> {
    Seq::new(items.len(), |i: int| items[i]@)
}

/// An output that may be absent, by its view.
pub open spec fn output_view(o: Option<Output>) -> Option<OutputView> {
    match o {
        Some(out) => Some(out@),
        None => None,
    }
}

/// The stack entry that a JSON value stands for: an object with a string member
/// `type` and a member `value` of any shape. Other members are ignored.
pub open spec fn item_of(v: Value) -> Option<StackItemView> {
    match (json_member(v, "type"@), json_member(v, "value"@)) {
        (Some(t), Some(val)) => match json_text(t) {
            Some(tag) => Some(StackItemView { itype: tag, ivalue: val }),
            None => None,
        },
        _ => None,
    }
}

/// The stack that a sequence of JSON values stands for: every one of them has to
/// be a stack entry.
pub open spec fn items_of(vs: Seq<Value>) -> Option<Seq<StackItemView>> {
    if forall|i: int| 0 <= i < vs.len() ==> (#[trigger] item_of(vs[i])) is Some {
        Some(Seq::new(vs.len(), |i: int| item_of(vs[i])->0))
    } else {
        None
    }
}

/// The output that a JSON value stands for: an object with string members
/// `status` and `errmsg`, an integer member `lastop` from 0 to 255 and an array
/// member `estack` of stack entries. Other members are ignored.
pub open spec fn output_of(v: Value) -> Option<OutputView> {
    match (
        json_member(v, "status"@),
        json_member(v, "errmsg"@),
        json_member(v, "lastop"@),
        json_member(v, "estack"@),
    ) {
        (Some(s), Some(e), Some(l), Some(k)) => match (
            json_text(s),
            json_text(e),
            json_unsigned(l),
            json_elements(k),
        ) {
            (Some(status), Some(errmsg), Some(lastop), Some(vs)) => match items_of(vs) {
                Some(estack) if lastop <= 255 => Some(
                    OutputView { status, errmsg, lastop: lastop as u8, estack },
                ),
                _ => None,
            },
            _ => None,
        },
        _ => None,
    }
}

/// The output that raw bytes stand for: they have to be one JSON document, and
/// that document an output.
pub open spec fn parsed(data: Seq<u8>) -> Option<OutputView> {
    match json_document(data) {
        Some(v) => output_of(v),
        None => None,
    }
}

/// Bytes that are no JSON document are no output.
pub proof fn unreadable_bytes_are_no_output(data: Seq<u8>)
    requires
        json_document(data) is None,
    ensures
        parsed(data) is None,
{
}

/// A document that lacks one of the four members is no output, whatever else
/// it holds.
pub proof fn incomplete_document_is_no_output(data: Seq<u8>, v: Value)
    requires
        json_document(data) == Some(v),
        json_member(v, "status"@) is None || json_member(v, "errmsg"@) is None || json_member(
            v,
            "lastop"@,
        ) is None || json_member(v, "estack"@) is None,
    ensures
        output_of(v) is None,
        parsed(data) is None,
{
}

/// Reads one stack entry from a JSON value.
pub fn decode_item(v: &Value) -> (r: Option<StackItem>)
    ensures
        r is Some <==> item_of(*v) is Some,
        r is Some ==> r->0@ == item_of(*v)->0,
{
    let tag = match member(v, "type") {
        Some(t) => match text(t) {
            Some(s) => s,
            None => { return None; },
        },
        None => { return None; },
    };
    match member(v, "value") {
        Some(val) => Some(StackItem { itype: String::from_str(tag), ivalue: duplicate(val) }),
        None => None,
    }
}

/// Reads a stack from JSON values, one entry from each.
pub fn decode_items(values: &Vec<Value>) -> (r: Option<Vec<StackItem>>)
    ensures
        r is Some <==> items_of(values@) is Some,
        r is Some ==> stack_view(r->0@) == items_of(values@)->0,
{
    let mut estack: Vec<StackItem> = Vec::new();
    let mut i: usize = 0;
    while i < values.len()
        invariant
            i <= values.len(),
            estack@.len() == i,
            forall|j: int| 0 <= j < i ==> (#[trigger] item_of(values@[j])) is Some,
            forall|j: int| 0 <= j < i ==> (#[trigger] estack@[j])@ == item_of(values@[j])->0,
        decreases values.len() - i,
    {
        match decode_item(&values[i]) {
            Some(item) => { estack.push(item); },
            None => {
                assert(item_of(values@[i as int]) is None);
                return None;
            },
        }
        i += 1;
    }
    assert(stack_view(estack@) =~= items_of(values@)->0);
    Some(estack)
}

/// Reads an output from a JSON value.
pub fn decode(v: &Value) -> (r: Option<Output>)
    ensures
        output_view(r) == output_of(*v),
{
    let status = match member(v, "status") {
        Some(s) => match text(s) {
            Some(t) => t,
            None => { return None; },
        },
        None => { return None; },
    };
    let errmsg = match member(v, "errmsg") {
        Some(s) => match text(s) {
            Some(t) => t,
            None => { return None; },
        },
        None => { return None; },
    };
    let lastop: u64 = match member(v, "lastop") {
        Some(l) => match unsigned(l) {
            Some(n) => n,
            None => { return None; },
        },
        None => { return None; },
    };
    let values = match member(v, "estack") {
        Some(k) => match elements(k) {
            Some(vs) => vs,
            None => { return None; },
        },
        None => { return None; },
    };
    let estack = match decode_items(values) {
        Some(items) => items,
        None => { return None; },
    };
    if lastop > 255 {
        return None;
    }
    Some(
        Output {
            status: String::from_str(status),
            errmsg: String::from_str(errmsg),
            lastop: lastop as u8,
            estack,
        },
    )
}

/// Reads an output from the bytes that a machine printed. Bytes that are no
/// output give `None`: what a machine prints is never trusted to be well formed.
pub fn parse(data: &Vec<u8>) -> (r: Option<Output>)
    ensures
        output_view(r) == parsed(data@),
{
    match read_document(data.as_slice()) {
        Some(v) => decode(&v),
        None => None,
    }
}

/// The output that a captured stream stands for. A machine whose stream was not
/// captured has no output.
pub open spec fn received(out: Option<Vec<u8>>) -> Option<OutputView> {
    match out {
        Some(data) => parsed(data@),
        None => None,
    }
}

/// Reads an output from a captured stream, if there is one.
pub fn parse_captured(out: &Option<Vec<u8>>) -> (r: Option<Output>)
    ensures
        output_view(r) == received(*out),
{
    match out {
        Some(data) => parse(data),
        None => None,
    }
}

} // verus!
