//! The bytecode that is handed to both virtual machines.
use base64::prelude::BASE64_STANDARD;
use base64::Engine;
use vstd::prelude::*;

verus! {

/// What `BASE64_STANDARD.encode` of the crate `base64` returns for `bytes`: their
/// encoding in the standard alphabet, with padding.
pub uninterp spec fn base64_standard(bytes: Seq<u8>) -> Seq<char>;

/// Calls `Engine::encode` on `BASE64_STANDARD`. The result is the text that
/// [`base64_standard`] names. The encoder gives up where the length of the text
/// does not fit in `usize`, so such inputs are left out.
#[verifier::external_body]
pub(crate) fn encode_standard(bytes: &[u8]) -> (r: String)
    requires
        (bytes@.len() / 3) * 4 + 4 <= usize::MAX,
    ensures
        r@ == base64_standard(bytes@),
{
    BASE64_STANDARD.encode(bytes)
}

/// A program for the virtual machines, as raw opcodes.
#[derive(Debug)]
pub struct ByteCodeInput {
    pub opcodes: Vec<u8>,
}

impl View for ByteCodeInput {
    type V = Seq<u8>;

    open spec fn view(&self) -> Seq<u8> {
        self.opcodes@
    }
}

impl Clone for ByteCodeInput {
    fn clone(&self) -> (r: Self)
        ensures
            r@ == self@,
    {
        let mut opcodes: Vec<u8> = Vec::new();
        opcodes.extend_from_slice(self.opcodes.as_slice());
        assert(opcodes@ =~= self.opcodes@);
        ByteCodeInput { opcodes }
    }
}

impl ByteCodeInput {
    /// Whether the base64 text of the opcodes has a length that fits in `usize`.
    /// It does for every input that fits in memory.
    pub open spec fn encodable(&self) -> bool {
        (self.opcodes@.len() / 3) * 4 + 4 <= usize::MAX
    }

    /// Tests whether the opcodes can be encoded.
    pub fn is_encodable(&self) -> (r: bool)
        ensures
            r == self.encodable(),
    {
        self.opcodes.len() / 3 <= (usize::MAX - 4) / 4
    }

    /// The opcodes in base64: the form in which an input is written down so that
    /// a run can be repeated.
    pub fn as_standard_base64(&self) -> (r: String)
        requires
            self.encodable(),
        ensures
            r@ == base64_standard(self@),
    {
        encode_standard(self.opcodes.as_slice())
    }

    /// The name under which an input is stored: its opcodes in base64.
    pub fn generate_name(&self) -> (r: String)
        requires
            self.encodable(),
        ensures
            r@ == base64_standard(self@),
    {
        self.as_standard_base64()
    }

    /// The bytes that a virtual machine receives as its argument: the base64
    /// text of the opcodes.
    pub fn target_bytes(&self) -> (r: Vec<u8>)
        requires
            self.encodable(),
        ensures
            r@ == vstd::utf8::encode_utf8(base64_standard(self@)),
    {
        let text = self.as_standard_base64();
        text.as_str().as_bytes_vec()
    }

    /// The opcodes.
    pub fn bytes(&self) -> (r: &[u8])
        ensures
            r@ == self@,
    {
        self.opcodes.as_slice()
    }

    /// The number of opcodes.
    pub fn len(&self) -> (r: usize)
        ensures
            r == self@.len(),
    {
        self.opcodes.len()
    }

    /// Cuts the opcodes down to `new_len`, or fills them up to it with `value`.
    pub fn resize(&mut self, new_len: usize, value: u8)
        ensures
            final(self)@.len() == new_len,
            forall|i: int|
                0 <= i < new_len ==> final(self)@[i] == if i < old(self)@.len() {
                    old(self)@[i]
                } else {
                    value
                },
    {
        let ghost before = self.opcodes@;
        self.opcodes.resize(new_len, value);
        proof {
            if new_len > before.len() {
                assert(self.opcodes@.subrange(0, before.len() as int) == before);
                assert forall|i: int| 0 <= i < before.len() implies self.opcodes@[i] == before[i] by {
                    assert(self.opcodes@.subrange(0, before.len() as int)[i] == before[i]);
                }
            }
        }
    }

    /// Appends `other` to the opcodes.
    pub fn extend(&mut self, other: &[u8])
        ensures
            final(self)@ == old(self)@ + other@,
    {
        self.opcodes.extend_from_slice(other);
        assert(self.opcodes@ =~= old(self)@ + other@);
    }
}

} // verus!
