//! Names as the tracking client writes them into a caller's buffer.
use vstd::prelude::*;
use vstd::utf8::{encode_utf8, valid_utf8};

verus! {

/// Size, in bytes, of the buffer handed to the tracking client for a name.
pub const NAME_BUFFER_CAPACITY: usize = 1024;

/// The bytes of `buffer` that are not zero, in their order.
pub open spec fn strip_nulls(buffer: Seq<u8>) -> Seq<u8>
    decreases buffer.len(),
{
    if buffer.len() == 0 {
        Seq::empty()
    } else if buffer.last() != 0 {
        strip_nulls(buffer.drop_last()).push(buffer.last())
    } else {
        strip_nulls(buffer.drop_last())
    }
}

/// Removes every zero byte from a name buffer. The tracking client pads a
/// name with zeros; what is left are the bytes of the name, ready to be
/// handed back to the client as a C string once a terminator is appended.
pub fn buffer_to_cstring(buffer: &Vec<u8>) -> (name: Vec<u8>)
    ensures
        name@ == strip_nulls(buffer@),
{
    let mut name: Vec<u8> = Vec::new();
    let mut at: usize = 0;
    while at < buffer.len()
        invariant
            at <= buffer.len(),
            name@ == strip_nulls(buffer@.take(at as int)),
        decreases buffer.len() - at,
    {
        let byte: u8 = buffer[at];
        proof {
            let longer = buffer@.take(at + 1);
            assert(longer.drop_last() == buffer@.take(at as int));
            assert(longer.last() == byte);
        }
        if byte != 0 {
            name.push(byte);
        }
        at += 1;
    }
    proof {
        assert(buffer@.take(at as int) == buffer@);
    }
    name
}

/// A stripped name holds no zero byte and no byte that the buffer did not
/// hold, and is no longer than the buffer.
pub proof fn lemma_strip_nulls_contents(buffer: Seq<u8>)
    ensures
        strip_nulls(buffer).len() <= buffer.len(),
        forall|i: int| 0 <= i < strip_nulls(buffer).len() ==> strip_nulls(buffer)[i] != 0,
        forall|i: int|
            0 <= i < strip_nulls(buffer).len() ==> buffer.contains(
                #[trigger] strip_nulls(buffer)[i],
            ),
    decreases buffer.len(),
{
    if buffer.len() > 0 {
        let shorter = buffer.drop_last();
        lemma_strip_nulls_contents(shorter);
        assert forall|i: int| 0 <= i < strip_nulls(buffer).len() implies buffer.contains(
            #[trigger] strip_nulls(buffer)[i],
        ) by {
            if i < strip_nulls(shorter).len() {
                let byte = strip_nulls(shorter)[i];
                assert(shorter.contains(byte));
                let at = choose|at: int| 0 <= at < shorter.len() && shorter[at] == byte;
                assert(buffer[at] == byte);
            } else {
                assert(buffer[buffer.len() - 1] == buffer.last());
            }
        }
    }
}

/// A buffer without a zero byte is its own name.
pub proof fn lemma_strip_nulls_keeps_clean(buffer: Seq<u8>)
    requires
        forall|i: int| 0 <= i < buffer.len() ==> buffer[i] != 0,
    ensures
        strip_nulls(buffer) == buffer,
    decreases buffer.len(),
{
    if buffer.len() > 0 {
        lemma_strip_nulls_keeps_clean(buffer.drop_last());
        assert(buffer.drop_last().push(buffer.last()) == buffer);
    }
}

/// Stripping twice is stripping once.
pub proof fn lemma_strip_nulls_idempotent(buffer: Seq<u8>)
    ensures
        strip_nulls(strip_nulls(buffer)) == strip_nulls(buffer),
{
    lemma_strip_nulls_contents(buffer);
    lemma_strip_nulls_keeps_clean(strip_nulls(buffer));
}

/// Zeros anywhere in the buffer leave no trace: the name of two buffers
/// laid end to end is the two names laid end to end.
pub proof fn lemma_strip_nulls_concat(front: Seq<u8>, back: Seq<u8>)
    ensures
        strip_nulls(front + back) == strip_nulls(front) + strip_nulls(back),
    decreases back.len(),
{
    if back.len() == 0 {
        assert(front + back == front);
        assert(strip_nulls(front) + strip_nulls(back) == strip_nulls(front));
    } else {
        lemma_strip_nulls_concat(front, back.drop_last());
        assert((front + back).drop_last() == front + back.drop_last());
        assert((front + back).last() == back.last());
        if back.last() != 0 {
            assert((strip_nulls(front) + strip_nulls(back.drop_last())).push(back.last())
                == strip_nulls(front) + strip_nulls(back.drop_last()).push(back.last()));
        }
    }
}

/// `String::from_utf8` of the standard library: the bytes become a string
/// exactly when they are well-formed UTF-8, and the string then encodes to
/// the very same bytes.
#[verifier::external_body]
fn string_from_utf8(bytes: Vec<u8>) -> (text: Option<String>)
    ensures
        text is Some <==> valid_utf8(bytes@),
        text matches Some(s) ==> encode_utf8(s@) == bytes@,
{
    match String::from_utf8(bytes) {
        Ok(text) => Some(text),
        Err(_) => None,
    }
}

/// Reads a stripped name as text. `None` when the bytes are not well-formed
/// UTF-8.
pub fn name_text(name: Vec<u8>) -> (text: Option<String>)
    ensures
        text is Some <==> valid_utf8(name@),
        text matches Some(s) ==> s@ == vstd::utf8::decode_utf8(name@),
{
    let text = string_from_utf8(name);
    proof {
        if text is Some {
            vstd::utf8::encode_utf8_decode_utf8(text->Some_0@);
        }
    }
    text
}

} // verus!
