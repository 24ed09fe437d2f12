//! Principals: opaque binary identity addresses with a canonical text
//! encoding.
//!
//! A principal is at most 29 bytes.  Its canonical text form (the store key,
//! and the form the legacy endpoint exchanges) is produced by the outside
//! encoder behind a trusted wrapper; the encoding is kept abstract as
//! `text_of`, together with the facts the library needs: the text uses only
//! lower-case letters, digits and dashes, and the encoding is invertible.

use vstd::prelude::*;

use crate::error::Error;

verus! {

/// Longest byte form a principal may take.
pub const MAX_PRINCIPAL_LEN: usize = 29;

/// Valid principal byte strings: anything of at most 29 bytes.
pub open spec fn valid_principal_bytes(b: Seq<u8>) -> bool {
    b.len() <= 29
}

/// The canonical text encoding of a principal's bytes, as UTF-8 bytes.
pub uninterp spec fn text_of(bytes: Seq<u8>) -> Seq<u8>;

/// Bytes that may occur in a canonical principal text: lower-case base32
/// characters (`a`..`z`, `0`..`9`) and the dash that groups them.
pub open spec fn is_text_byte(b: u8) -> bool {
    (97 <= b <= 122) || (48 <= b <= 57) || b == 45
}

/// An opaque binary identity address.
#[derive(Clone, Debug, PartialEq, Eq, Hash)]
pub struct Principal {
    bytes: Vec<u8>,
}

impl View for Principal {
    type V = Seq<u8>;

    closed spec fn view(&self) -> Seq<u8> {
        self.bytes@
    }
}

impl Principal {
    /// Well-formed principals hold at most 29 bytes.
    pub open spec fn wf(&self) -> bool {
        valid_principal_bytes(self@)
    }

    /// Decode a principal from raw bytes, as the modern endpoint hands them
    /// over.  Succeeds exactly on byte strings of at most 29 bytes.
    pub fn try_from_slice(slice: &[u8]) -> (r: Result<Principal, Error>)
        ensures
            slice@.len() <= 29 ==> (r matches Ok(p) && p@ == slice@ && p.wf()),
            slice@.len() > 29 ==> r == Err::<Principal, Error>(Error::InvalidPrincipal),
    {
        if slice.len() <= MAX_PRINCIPAL_LEN {
            Ok(Principal { bytes: vstd::slice::slice_to_vec(slice) })
        } else {
            Err(Error::InvalidPrincipal)
        }
    }

    /// The principal's bytes.
    pub fn as_slice(&self) -> (r: &[u8])
        ensures
            r@ == self@,
    {
        self.bytes.as_slice()
    }

    /// The canonical text form, as UTF-8 bytes; distinct principals have
    /// distinct texts.
    pub fn to_text(&self) -> (r: Vec<u8>)
        requires
            self.wf(),
        ensures
            r@ == text_of(self@),
            forall|i: int| 0 <= i < r@.len() ==> is_text_byte(r@[i]),
            forall|b2: Seq<u8>| valid_principal_bytes(b2) && text_of(b2) == r@ ==> b2 == self@,
    {
        principal_text_bytes(&self.bytes)
    }

    /// Parse a principal from its text form, as the legacy endpoint hands it
    /// over.  Canonical texts parse back to exactly the encoded principal.
    pub fn from_text(text: &[u8]) -> (r: Result<Principal, Error>)
        ensures
            r matches Ok(p) ==> p.wf(),
            forall|b2: Seq<u8>| valid_principal_bytes(b2) && text@ == text_of(b2)
                ==> (r matches Ok(p) && p@ == b2),
            r matches Err(e) ==> e == Error::InvalidPrincipal,
    {
        match principal_of_text(text) {
            Ok(bytes) => Ok(Principal { bytes }),
            Err(()) => Err(Error::InvalidPrincipal),
        }
    }
}

/// Relies on `candid::Principal::to_text`: the canonical text encoding of
/// the principal's bytes (a CRC-prefixed base32 form, lower case, grouped by
/// dashes), a function of the bytes alone.  The alphabet fact and the
/// injectivity fact are plain from its source: the encoding emits only that
/// alphabet, and `from_text` parses a canonical text back to its bytes.
#[verifier::external_body]
fn principal_text_bytes(bytes: &Vec<u8>) -> (r: Vec<u8>)
    requires
        valid_principal_bytes(bytes@),
    ensures
        r@ == text_of(bytes@),
        forall|i: int| 0 <= i < r@.len() ==> is_text_byte(r@[i]),
        forall|b2: Seq<u8>| valid_principal_bytes(b2) && text_of(b2) == r@ ==> b2 == bytes@,
{
    let p = candid::Principal::try_from_slice(bytes.as_slice()).unwrap();
    p.to_text().into_bytes()
}

/// Relies on `candid::Principal::from_text`: parses a text form back to the
/// principal's bytes.  It re-encodes what it parsed and compares, so on a
/// canonical text it returns exactly the bytes that were encoded.
#[verifier::external_body]
fn principal_of_text(text: &[u8]) -> (r: Result<Vec<u8>, ()>)
    ensures
        r matches Ok(b) ==> valid_principal_bytes(b@),
        r matches Err(e) ==> forall|b2: Seq<u8>|
            !(valid_principal_bytes(b2) && text@ == text_of(b2)),
        r matches Ok(b) ==> forall|b2: Seq<u8>|
            valid_principal_bytes(b2) && text@ == text_of(b2) ==> b@ == b2,
{
    let s = match core::str::from_utf8(text) {
        Ok(s) => s,
        Err(_) => return Err(()),
    };
    match candid::Principal::from_text(s) {
        Ok(p) => Ok(p.as_slice().to_vec()),
        Err(_) => Err(()),
    }
}

} // verus!
