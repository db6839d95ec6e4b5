//! The strings that go to the frontend: bytes of ASCII that end with a zero
//! byte.

use vstd::prelude::*;
use vstd::string::*;

verus! {

/// Why a string cannot go to the frontend.
#[derive(Clone, Copy, Debug, PartialEq, Eq)]
pub enum StringError {
    /// A byte of the string is not ASCII.
    NotAscii,
    /// The string does not end with a zero byte.
    NotTerminated,
}

/// Whether every byte is ASCII.
pub open spec fn all_ascii(bytes: Seq<u8>) -> bool {
    forall|i: int| 0 <= i < bytes.len() ==> bytes[i] < 0x80
}

/// What keeps a string from going to the frontend as it is, if anything: a
/// byte that is not ASCII, or else a last byte that is not zero.
pub open spec fn string_defect(bytes: Seq<u8>) -> Option<StringError> {
    if !all_ascii(bytes) {
        Some(StringError::NotAscii)
    } else if bytes.len() == 0 || bytes.last() != 0 {
        Some(StringError::NotTerminated)
    } else {
        None
    }
}

/// The ASCII bytes of a string, in their order, and a zero byte behind them.
pub open spec fn ascii_cstring(bytes: Seq<u8>) -> Seq<u8> {
    bytes.filter(|byte: u8| byte < 0x80).push(0u8)
}

/// Whether a byte occurs.
pub open spec fn has_byte(bytes: Seq<u8>, byte: u8) -> bool {
    exists|i: int| 0 <= i < bytes.len() && bytes[i] == byte
}

/// Checks that a string can go to the frontend as it is.
pub fn check_valid(text: &str) -> (result: Result<(), StringError>)
    ensures
        match result {
            Ok(_) => string_defect(text.spec_bytes()) is None,
            Err(error) => string_defect(text.spec_bytes()) == Some(error),
        },
{
    let bytes = text.as_bytes();
    let mut i: usize = 0;
    while i < bytes.len()
        invariant
            i <= bytes@.len(),
            bytes@ == text.spec_bytes(),
            forall|j: int| 0 <= j < i ==> bytes[j] < 0x80,
        decreases bytes@.len() - i,
    {
        if bytes[i] >= 0x80 {
            assert(!(bytes@[i as int] < 0x80));
            return Err(StringError::NotAscii);
        }
        i += 1;
    }
    if bytes.len() == 0 || bytes[bytes.len() - 1] != 0 {
        return Err(StringError::NotTerminated);
    }
    Ok(())
}

/// The string as it goes to the frontend: without the bytes that are not
/// ASCII, and with a zero byte at its end.
pub fn to_ascii_cstring(text: &str) -> (terminated: Vec<u8>)
    ensures
        terminated@ == ascii_cstring(text.spec_bytes()),
{
    ascii_bytes_cstring(text.as_bytes())
}

/// The bytes as they go to the frontend: without those that are not ASCII,
/// and with a zero byte at their end.
pub fn ascii_bytes_cstring(bytes: &[u8]) -> (terminated: Vec<u8>)
    ensures
        terminated@ == ascii_cstring(bytes@),
{
    let ghost keep = |byte: u8| byte < 0x80;
    let mut dst: Vec<u8> = Vec::new();
    let mut i: usize = 0;
    proof {
        reveal(Seq::filter);
        assert(bytes@.take(0).filter(keep) =~= Seq::<u8>::empty());
    }
    while i < bytes.len()
        invariant
            i <= bytes@.len(),
            keep == |byte: u8| byte < 0x80,
            dst@ == bytes@.take(i as int).filter(keep),
        decreases bytes@.len() - i,
    {
        let src_byte = bytes[i];
        proof {
            reveal(Seq::filter);
            assert(bytes@.take(i + 1).drop_last() =~= bytes@.take(i as int));
        }
        if src_byte < 0x80 {
            dst.push(src_byte);
        }
        i += 1;
    }
    assert(bytes@.take(i as int) =~= bytes@);
    dst.push(0);
    dst
}

/// Whether a zero byte occurs in a string.
pub fn contains_nul(bytes: &[u8]) -> (found: bool)
    ensures
        found == has_byte(bytes@, 0),
{
    let mut i: usize = 0;
    while i < bytes.len()
        invariant
            i <= bytes@.len(),
            forall|j: int| 0 <= j < i ==> bytes[j] != 0,
        decreases bytes@.len() - i,
    {
        if bytes[i] == 0 {
            return true;
        }
        i += 1;
    }
    false
}

/// Whether two strings hold the same bytes.
pub fn same_bytes(a: &[u8], b: &[u8]) -> (same: bool)
    ensures
        same == (a@ == b@),
{
    if a.len() != b.len() {
        return false;
    }
    let mut i: usize = 0;
    while i < a.len()
        invariant
            i <= a@.len(),
            a@.len() == b@.len(),
            forall|j: int| 0 <= j < i ==> a[j] == b[j],
        decreases a@.len() - i,
    {
        if a[i] != b[i] {
            return false;
        }
        i += 1;
    }
    assert(a@ =~= b@);
    true
}

} // verus!
