//! Text on its way into a native call.

use crate::error::Error;
use vstd::prelude::*;
use vstd::string::StringSliceAdditionalSpecFns;
use vstd::utf8::{encode_utf8, encode_utf8_decode_utf8};

verus! {

/// The position of the first terminator byte of `bytes` at or after `from`.
pub open spec fn nul_from(bytes: Seq<u8>, from: int) -> Option<int>
    decreases bytes.len() - from,
{
    if from < 0 || from >= bytes.len() {
        None
    } else if bytes[from] == 0 {
        Some(from)
    } else {
        nul_from(bytes, from + 1)
    }
}

/// What marshalling makes of `bytes`: the bytes with a terminator after them,
/// or the error that names the first terminator among them.
pub open spec fn c_text(bytes: Seq<u8>) -> Result<Seq<u8>, Error> {
    match nul_from(bytes, 0) {
        Some(at) => Err(Error::MarshalError(at as usize)),
        None => Ok(bytes.push(0)),
    }
}

/// What marshalling makes of `text`: `c_text` of its UTF-8 bytes.
pub open spec fn marshalled(text: Seq<char>) -> Result<Seq<u8>, Error> {
    c_text(encode_utf8(text))
}

/// `nul_from` finds a terminator exactly when there is one, and then the
/// first: no byte before the position it gives is a terminator.
pub proof fn nul_from_is_first(bytes: Seq<u8>, from: int)
    requires
        0 <= from,
    ensures
        match nul_from(bytes, from) {
            Some(at) => from <= at < bytes.len() && bytes[at] == 0 && forall|j: int|
                from <= j < at ==> bytes[j] != 0,
            None => forall|j: int| from <= j < bytes.len() ==> bytes[j] != 0,
        },
    decreases bytes.len() - from,
{
    if from < bytes.len() && bytes[from] != 0 {
        nul_from_is_first(bytes, from + 1);
    }
}

/// Marshalled text is never empty, ends in a terminator and holds no other:
/// a native reader stops exactly at its end.
pub proof fn c_text_is_terminated(bytes: Seq<u8>)
    ensures
        match c_text(bytes) {
            Ok(text) => text.len() == bytes.len() + 1 && text.last() == 0 && forall|j: int|
                0 <= j < bytes.len() ==> text[j] == bytes[j] && text[j] != 0,
            Err(e) => e is MarshalError && exists|at: int|
                0 <= at < bytes.len() && bytes[at] == 0,
        },
{
    nul_from_is_first(bytes, 0);
}

/// Converts `text` to the form that native calls read: its UTF-8 bytes and a
/// terminator. Text that already holds a terminator byte is refused.
pub fn into_cstring(text: &str) -> (r: Result<Vec<u8>, Error>)
    ensures
        match r {
            Ok(bytes) => marshalled(text@) == Ok::<Seq<u8>, Error>(bytes@),
            Err(e) => marshalled(text@) == Err::<Seq<u8>, Error>(e),
        },
{
    let src = text.as_bytes();
    let n: usize = src.len();
    let mut out: Vec<u8> = Vec::new();
    let mut i: usize = 0;
    while i < n
        invariant
            n == src@.len(),
            src@ == text.spec_bytes(),
            0 <= i <= n,
            out@ == src@.subrange(0, i as int),
            nul_from(src@, 0) == nul_from(src@, i as int),
        decreases n - i,
    {
        let b: u8 = src[i];
        if b == 0 {
            return Err(Error::MarshalError(i));
        }
        out.push(b);
        assert(out@ =~= src@.subrange(0, i + 1));
        i += 1;
    }
    assert(src@.subrange(0, n as int) =~= src@);
    out.push(0);
    Ok(out)
}

/// Whether two strings hold the same text.
pub fn str_eq(a: &str, b: &str) -> (r: bool)
    ensures
        r == (a@ == b@),
{
    let x = a.as_bytes();
    let y = b.as_bytes();
    proof {
        encode_utf8_decode_utf8(a@);
        encode_utf8_decode_utf8(b@);
    }
    if x.len() != y.len() {
        return false;
    }
    let n: usize = x.len();
    let mut i: usize = 0;
    while i < n
        invariant
            n == x@.len(),
            n == y@.len(),
            x@ == a.spec_bytes(),
            y@ == b.spec_bytes(),
            0 <= i <= n,
            forall|j: int| 0 <= j < i ==> x@[j] == y@[j],
        decreases n - i,
    {
        if x[i] != y[i] {
            return false;
        }
        i += 1;
    }
    assert(x@ =~= y@);
    true
}

} // verus!
