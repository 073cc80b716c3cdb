//! The bounded prefix of a file that content sniffing and the text excerpt work on.

use vstd::prelude::*;
use vstd::utf8::{
    decode_utf8, encode_utf8, encode_utf8_decode_utf8, encode_utf8_valid_utf8, valid_utf8,
};

verus! {

/// The largest number of bytes a content block holds.
pub const BLOCK_SIZE: usize = 4096;

/// What a content block keeps of `data`: all of it, or its first `BLOCK_SIZE` bytes.
pub open spec fn leading(data: Seq<u8>) -> Seq<u8> {
    if data.len() <= BLOCK_SIZE {
        data
    } else {
        data.take(BLOCK_SIZE as int)
    }
}

/// A block keeps the start of the data and stops at `BLOCK_SIZE` bytes: data of
/// up to `BLOCK_SIZE` bytes is kept whole, so that no data gives no bytes, and
/// longer data gives exactly `BLOCK_SIZE` bytes.
pub proof fn lemma_leading_is_bounded_prefix(data: Seq<u8>)
    ensures
        leading(data).len() <= BLOCK_SIZE,
        leading(data) == data.take(leading(data).len() as int),
        data.len() <= BLOCK_SIZE ==> leading(data) == data,
        data.len() == 0 ==> leading(data).len() == 0,
        data.len() >= BLOCK_SIZE ==> leading(data).len() == BLOCK_SIZE,
{
    if data.len() <= BLOCK_SIZE {
        assert(data.take(data.len() as int) == data);
    } else {
        let cut = data.take(BLOCK_SIZE as int);
        assert(cut.take(BLOCK_SIZE as int) == cut);
    }
}

/// What lossy decoding makes of bytes that are not well-formed UTF-8: the text
/// in which every ill-formed part is replaced by U+FFFD.
pub uninterp spec fn repaired_utf8(bytes: Seq<u8>) -> Seq<char>;

/// The text that lossy UTF-8 decoding makes of `bytes`: the characters they
/// encode where they are well-formed UTF-8, and the repaired text where not.
pub open spec fn lossy_utf8(bytes: Seq<u8>) -> Seq<char> {
    if valid_utf8(bytes) {
        decode_utf8(bytes)
    } else {
        repaired_utf8(bytes)
    }
}

/// Bytes that are the UTF-8 encoding of a text decode to that very text.
pub proof fn lemma_encoded_text_decodes_to_itself(text: Seq<char>)
    ensures
        lossy_utf8(encode_utf8(text)) == text,
{
    encode_utf8_valid_utf8(text);
    encode_utf8_decode_utf8(text);
}

/// Decodes with `String::from_utf8_lossy` of the standard library. Trusted:
/// well-formed UTF-8 comes out as the characters it encodes, and what comes out
/// of other bytes is a function of the bytes alone, named `repaired_utf8`.
#[verifier::external_body]
fn decode_lossy(bytes: &[u8]) -> (text: String)
    ensures
        valid_utf8(bytes@) ==> text@ == decode_utf8(bytes@),
        !valid_utf8(bytes@) ==> text@ == repaired_utf8(bytes@),
{
    String::from_utf8_lossy(bytes).into_owned()
}

/// The bytes at the start of a file, never more than `BLOCK_SIZE` of them.
#[derive(Debug, PartialEq, Eq)]
pub struct ContentBlock {
    bytes: Vec<u8>,
}

impl View for ContentBlock {
    type V = Seq<u8>;

    closed spec fn view(&self) -> Seq<u8> {
        self.bytes@
    }
}

impl Clone for ContentBlock {
    fn clone(&self) -> (copy: ContentBlock)
        ensures
            copy@ == self@,
    {
        proof {
            use_type_invariant(self);
        }
        let bytes = self.bytes.clone();
        assert(bytes@ =~= self.bytes@);
        ContentBlock { bytes }
    }
}

impl ContentBlock {
    #[verifier::type_invariant]
    spec fn bounded(self) -> bool {
        self.bytes@.len() <= BLOCK_SIZE
    }

    /// The block of a file that could not be read, or that holds nothing.
    pub fn empty() -> (block: ContentBlock)
        ensures
            block@ == Seq::<u8>::empty(),
    {
        ContentBlock { bytes: Vec::new() }
    }

    /// The block of a file that starts with `data`.
    pub fn from_bytes(data: &[u8]) -> (block: ContentBlock)
        ensures
            block@ == leading(data@),
    {
        let kept: usize = if data.len() <= BLOCK_SIZE { data.len() } else { BLOCK_SIZE };
        let mut bytes: Vec<u8> = Vec::with_capacity(kept);
        let mut i: usize = 0;
        while i < kept
            invariant
                kept <= data@.len(),
                i <= kept,
                bytes@ == data@.take(i as int),
            decreases kept - i,
        {
            bytes.push(data[i]);
            i = i + 1;
        }
        assert(data@.take(data@.len() as int) == data@);
        ContentBlock { bytes }
    }

    /// The block for the outcome of reading the start of a file: what was read,
    /// cut to `BLOCK_SIZE` bytes, and no bytes at all where the read failed.
    pub fn from_read(outcome: Option<Vec<u8>>) -> (block: ContentBlock)
        ensures
            block@ == match outcome {
                Some(data) => leading(data@),
                None => Seq::<u8>::empty(),
            },
    {
        match outcome {
            Some(data) => ContentBlock::from_bytes(data.as_slice()),
            None => ContentBlock::empty(),
        }
    }

    /// The number of bytes in the block.
    pub fn len(&self) -> (n: usize)
        ensures
            n == self@.len(),
            n <= BLOCK_SIZE,
    {
        proof {
            use_type_invariant(self);
        }
        self.bytes.len()
    }

    /// Whether the block holds no bytes.
    pub fn is_empty(&self) -> (none: bool)
        ensures
            none == (self@.len() == 0),
    {
        self.bytes.len() == 0
    }

    /// The bytes of the block, for the content sniffer.
    pub fn as_slice(&self) -> (bytes: &[u8])
        ensures
            bytes@ == self@,
            bytes@.len() <= BLOCK_SIZE,
    {
        proof {
            use_type_invariant(self);
        }
        self.bytes.as_slice()
    }

    /// The block as text, decoded as UTF-8 with U+FFFD in place of what is not.
    pub fn to_text(&self) -> (text: String)
        ensures
            text@ == lossy_utf8(self@),
    {
        decode_lossy(self.bytes.as_slice())
    }
}

} // verus!
