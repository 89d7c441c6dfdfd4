//! Names as the engine takes and gives them.
//!
//! The engine reads a name as the bytes up to the first zero byte of a
//! buffer, so a name that holds a zero byte cannot be handed over whole. It
//! answers a query for a name with a buffer, or with a null pointer where it
//! keeps none.

use vstd::prelude::*;
use vstd::string::StringSliceAdditionalSpecFns;

verus! {

/// What the engine gives back when asked for the name of a value.
#[derive(Debug, PartialEq, Eq)]
pub enum NameBuffer {
    /// A null pointer: the value has no name.
    Null,
    /// A buffer that holds this text, which may be empty.
    Text(String),
}

/// Whether `text` can be handed to the engine whole: it holds no zero byte.
pub open spec fn is_c_text(text: Seq<u8>) -> bool {
    forall|i: int| 0 <= i < text.len() ==> text[i] != 0
}

/// `text` with the zero byte that ends it.
pub open spec fn c_string(text: Seq<u8>) -> Seq<u8> {
    text.push(0u8)
}

/// What the engine reads from `buffer`: the bytes before its first zero byte.
pub open spec fn c_text(buffer: Seq<u8>) -> Seq<u8>
    decreases buffer.len(),
{
    if buffer.len() == 0 || buffer[0] == 0 {
        Seq::empty()
    } else {
        seq![buffer[0]] + c_text(buffer.drop_first())
    }
}

/// Whether `name` can be handed to the engine whole.
pub fn is_valid_name(name: &str) -> (ok: bool)
    ensures
        ok == is_c_text(name.spec_bytes()),
{
    let bytes = name.as_bytes();
    let mut i: usize = 0;
    while i < bytes.len()
        invariant
            i <= bytes.len(),
            bytes@ == name.spec_bytes(),
            forall|k: int| 0 <= k < i ==> bytes@[k] != 0,
        decreases bytes.len() - i,
    {
        if bytes[i] == 0 {
            return false;
        }
        i += 1;
    }
    true
}

/// The buffer that hands `name` to the engine: its bytes and a zero byte.
pub fn to_c_string(name: &str) -> (buffer: Vec<u8>)
    requires
        is_c_text(name.spec_bytes()),
    ensures
        buffer@ == c_string(name.spec_bytes()),
        c_text(buffer@) == name.spec_bytes(),
{
    let bytes = name.as_bytes();
    let mut buffer: Vec<u8> = Vec::new();
    let mut i: usize = 0;
    while i < bytes.len()
        invariant
            i <= bytes.len(),
            buffer@ == bytes@.take(i as int),
        decreases bytes.len() - i,
    {
        buffer.push(bytes[i]);
        proof {
            assert(bytes@.take(i + 1) == bytes@.take(i as int).push(bytes@[i as int]));
        }
        i += 1;
    }
    buffer.push(0);
    proof {
        assert(bytes@.take(bytes.len() as int) == bytes@);
        lemma_c_text_of_c_string(name.spec_bytes());
    }
    buffer
}

/// The engine reads back exactly the text that was handed to it, provided
/// the text holds no zero byte; the empty text too, which it tells apart
/// from no buffer at all.
pub proof fn lemma_c_text_of_c_string(text: Seq<u8>)
    requires
        is_c_text(text),
    ensures
        c_text(c_string(text)) == text,
    decreases text.len(),
{
    let buffer = c_string(text);
    if text.len() == 0 {
        assert(buffer[0] == 0);
    } else {
        let rest = text.drop_first();
        assert(buffer[0] == text[0]);
        assert(buffer.drop_first() == c_string(rest));
        assert forall|i: int| 0 <= i < rest.len() implies rest[i] != 0 by {
            assert(rest[i] == text[i + 1]);
        }
        lemma_c_text_of_c_string(rest);
        assert(seq![text[0]] + rest == text);
    }
}

/// A zero byte inside the text cuts off what the engine reads.
pub proof fn lemma_c_text_stops_at_zero(text: Seq<u8>, k: int)
    requires
        0 <= k < text.len(),
        text[k] == 0,
    ensures
        c_text(c_string(text)).len() <= k,
        c_text(c_string(text)) != text,
    decreases text.len(),
{
    let buffer = c_string(text);
    if buffer[0] != 0 {
        let rest = text.drop_first();
        assert(buffer[0] == text[0]);
        assert(buffer.drop_first() == c_string(rest));
        lemma_c_text_stops_at_zero(rest, k - 1);
    }
}

} // verus!
