//! Texts out of the bytes that a device sends.

use vstd::prelude::*;
use vstd::slice::slice_subrange;
use vstd::string::StringExecFns;

verus! {

/// The most bytes that are decoded at once.
const PIECE: usize = 4096;

/// The byte between the identity and the address of an access point.
pub const AT_SIGN: u8 = 64;

/// Every byte as the character with that code point.
pub open spec fn latin1(bytes: Seq<u8>) -> Seq<char> {
    bytes.map_values(|b: u8| b as char)
}

/// What stands before the first `@`; all of it where there is none.
pub open spec fn before_at(bytes: Seq<u8>) -> Seq<u8> {
    match bytes.index_of_first(AT_SIGN) {
        Some(i) => bytes.take(i),
        None => bytes,
    }
}

/// `encoding_rs::mem::decode_latin1`: every byte becomes the character whose code point it is.
/// It may reserve two bytes for every byte of input, hence the bound.
#[verifier::external_body]
fn decode_latin1(bytes: &[u8]) -> (text: String)
    requires
        bytes@.len() * 2 <= isize::MAX,
    ensures
        text@ == latin1(bytes@),
{
    encoding_rs::mem::decode_latin1(bytes).into_owned()
}

/// The text that Latin-1 bytes stand for.
pub fn latin1_text(bytes: &[u8]) -> (text: String)
    ensures
        text@ == latin1(bytes@),
        text@.len() == bytes@.len(),
        forall|i: int| 0 <= i < bytes@.len() ==> #[trigger] text@[i] == bytes@[i] as char,
{
    let mut text = String::new();
    let mut done: usize = 0;
    assert(latin1(bytes@.take(0)) =~= text@);
    while done < bytes.len()
        invariant
            done <= bytes@.len(),
            text@ == latin1(bytes@.take(done as int)),
        decreases bytes@.len() - done,
    {
        let end: usize = if bytes.len() - done > PIECE {
            done + PIECE
        } else {
            bytes.len()
        };
        let piece = decode_latin1(slice_subrange(bytes, done, end));
        text.append(piece.as_str());
        assert(text@ =~= latin1(bytes@.take(end as int)));
        done = end;
    }
    assert(bytes@.take(done as int) =~= bytes@);
    text
}

/// The bytes before the first `@`.
pub fn split_at_sign(bytes: &[u8]) -> (head: &[u8])
    ensures
        head@ == before_at(bytes@),
        head@.len() <= bytes@.len(),
        head@ == bytes@.take(head@.len() as int),
        forall|i: int| 0 <= i < head@.len() ==> #[trigger] head@[i] != 64u8,
        head@.len() < bytes@.len() ==> bytes@[head@.len() as int] == 64u8,
{
    let mut i: usize = 0;
    while i < bytes.len()
        invariant
            i <= bytes@.len(),
            forall|j: int| 0 <= j < i ==> bytes@[j] != AT_SIGN,
        decreases bytes@.len() - i,
    {
        if bytes[i] == AT_SIGN {
            proof {
                lemma_first_at(bytes@, i as int);
            }
            return slice_subrange(bytes, 0, i);
        }
        i = i + 1;
    }
    proof {
        bytes@.index_of_first_ensures(AT_SIGN);
        assert(bytes@.take(bytes@.len() as int) =~= bytes@);
    }
    bytes
}

/// Whether a text is the given one.
pub fn same_text(a: &String, b: &str) -> (same: bool)
    ensures
        same <==> a@ == b@,
{
    a.eq(&b.to_string())
}

proof fn lemma_first_at(bytes: Seq<u8>, i: int)
    requires
        0 <= i < bytes.len(),
        bytes[i] == AT_SIGN,
        forall|j: int| 0 <= j < i ==> bytes[j] != AT_SIGN,
    ensures
        before_at(bytes) == bytes.subrange(0, i),
{
    bytes.index_of_first_ensures(AT_SIGN);
    assert(bytes.contains(AT_SIGN));
    assert(bytes.take(i) =~= bytes.subrange(0, i));
}

/// The part before the first `@` holds no `@`, and either nothing follows it or an `@` does.
pub proof fn before_at_ends_at_the_first(bytes: Seq<u8>)
    ensures
        before_at(bytes).is_prefix_of(bytes),
        !before_at(bytes).contains(64u8),
        before_at(bytes).len() < bytes.len() ==> bytes[before_at(bytes).len() as int] == 64u8,
{
    bytes.index_of_first_ensures(AT_SIGN);
}

/// Different bytes stand for different texts.
pub proof fn latin1_is_injective(a: Seq<u8>, b: Seq<u8>)
    ensures
        latin1(a) == latin1(b) <==> a == b,
{
    if latin1(a) == latin1(b) {
        assert(a.len() == latin1(a).len() == b.len());
        assert forall|i: int| 0 <= i < a.len() implies a[i] == b[i] by {
            assert(latin1(a)[i] == latin1(b)[i]);
            assert(a[i] as char as u8 == a[i]);
        }
        assert(a =~= b);
    }
}

/// Every byte stands for one character, the one with its code point.
pub proof fn latin1_goes_byte_by_byte(bytes: Seq<u8>, i: int)
    requires
        0 <= i < bytes.len(),
    ensures
        latin1(bytes).len() == bytes.len(),
        latin1(bytes)[i] as u32 == bytes[i] as u32,
{
}

} // verus!
