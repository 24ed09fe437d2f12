//! Client-side request construction for the legacy JSON/HTTP interface.
//!
//! A caller of the service builds its requests from plain values: the
//! request path from the principal's text, the write body from the record
//! and the caller's signature, the bulk-delete body from the listed
//! principals.  Sending them, and the signing itself, stay outside the
//! library.

use vstd::prelude::*;

use crate::codec::{encode_record, spec_encode};
use crate::principal::{text_of, Principal};
use crate::types::{BulkUsers, SetUserMetadataReq, UserMetadataSpec};

verus! {

/// Bytes of `metadata/`, the path segment in front of the principal text.
pub open spec fn path_segment() -> Seq<u8> {
    seq![109u8, 101, 116, 97, 100, 97, 116, 97, 47]
}

/// Bytes of `{"metadata":`, the opening of a write body.
pub open spec fn body_pre() -> Seq<u8> {
    seq![123u8, 34, 109, 101, 116, 97, 100, 97, 116, 97, 34, 58]
}

/// Bytes of `,"signature":`, between the record and the signature.
pub open spec fn body_sig() -> Seq<u8> {
    seq![44u8, 34, 115, 105, 103, 110, 97, 116, 117, 114, 101, 34, 58]
}

/// The body of a write request: the record object and the caller's
/// signature object, exactly as the service's legacy interface reads them.
pub open spec fn spec_set_body(ms: UserMetadataSpec, sig: Seq<u8>) -> Seq<u8> {
    body_pre() + spec_encode(ms) + body_sig() + sig + seq![125u8]
}

/// A quoted principal text.
pub open spec fn spec_quoted(t: Seq<u8>) -> Seq<u8> {
    seq![34u8] + t + seq![34u8]
}

/// The tail of a JSON list of principal texts: each entry comma-prefixed.
pub open spec fn spec_list_tail(texts: Seq<Seq<u8>>) -> Seq<u8>
    decreases texts.len(),
{
    if texts.len() == 0 {
        Seq::empty()
    } else {
        seq![44u8] + spec_quoted(texts[0]) + spec_list_tail(texts.skip(1))
    }
}

/// The texts of a list of principals.
pub open spec fn spec_texts(users: Seq<Principal>) -> Seq<Seq<u8>> {
    users.map_values(|p: Principal| text_of(p@))
}

/// The body of a bulk-delete request: `{"users":[...]}` over the
/// principals' texts, in request order.
pub open spec fn spec_bulk_body(users: Seq<Principal>) -> Seq<u8> {
    let texts = spec_texts(users);
    if texts.len() == 0 {
        seq![123u8, 34, 117, 115, 101, 114, 115, 34, 58, 91, 93, 125]
    } else {
        seq![123u8, 34, 117, 115, 101, 114, 115, 34, 58, 91] + spec_quoted(texts[0])
            + spec_list_tail(texts.skip(1)) + seq![93u8, 125]
    }
}

/// The request path for one principal's record: `metadata/` plus the
/// canonical text.
pub fn metadata_path(principal: &Principal) -> (r: Vec<u8>)
    requires
        principal.wf(),
    ensures
        r@ == path_segment() + text_of(principal@),
{
    let mut out: Vec<u8> = Vec::new();
    out.push(109);
    out.push(101);
    out.push(116);
    out.push(97);
    out.push(100);
    out.push(97);
    out.push(116);
    out.push(97);
    out.push(47);
    let text = principal.to_text();
    out.extend_from_slice(text.as_slice());
    proof {
        assert(out@ =~= path_segment() + text_of(principal@));
    }
    out
}

/// Build the write body from a request: the encoded record and the opaque
/// signature object the caller produced.
pub fn set_user_metadata_body(req: &SetUserMetadataReq) -> (r: Vec<u8>)
    requires
        req.metadata.wf(),
    ensures
        r@ == spec_set_body(req.metadata@, req.signature@),
{
    let mut out: Vec<u8> = Vec::new();
    out.push(123);
    out.push(34);
    out.push(109);
    out.push(101);
    out.push(116);
    out.push(97);
    out.push(100);
    out.push(97);
    out.push(116);
    out.push(97);
    out.push(34);
    out.push(58);
    proof {
        assert(out@ =~= body_pre());
    }
    let record = encode_record(&req.metadata);
    out.extend_from_slice(record.as_slice());
    out.push(44);
    out.push(34);
    out.push(115);
    out.push(105);
    out.push(103);
    out.push(110);
    out.push(97);
    out.push(116);
    out.push(117);
    out.push(114);
    out.push(101);
    out.push(34);
    out.push(58);
    out.extend_from_slice(req.signature.as_slice());
    out.push(125);
    proof {
        assert(out@ =~= spec_set_body(req.metadata@, req.signature@));
    }
    out
}

/// One more comma-prefixed entry extends the list tail.
proof fn lemma_list_tail_take_succ(texts: Seq<Seq<u8>>, k: int)
    requires
        0 <= k < texts.len(),
    ensures
        spec_list_tail(texts.take(k + 1)) == spec_list_tail(texts.take(k)) + (seq![44u8]
            + spec_quoted(texts[k])),
    decreases k,
{
    if k == 0 {
        assert(texts.take(1)[0] == texts[0]);
        assert(texts.take(1).skip(1) =~= Seq::<Seq<u8>>::empty());
        assert(texts.take(0) =~= Seq::<Seq<u8>>::empty());
        assert(spec_list_tail(texts.take(1)) =~= spec_list_tail(texts.take(0)) + (seq![44u8]
            + spec_quoted(texts[0])));
    } else {
        lemma_list_tail_take_succ(texts.skip(1), k - 1);
        assert(texts.take(k + 1)[0] == texts[0]);
        assert(texts.take(k)[0] == texts[0]);
        assert(texts.take(k + 1).skip(1) =~= texts.skip(1).take(k));
        assert(texts.take(k).skip(1) =~= texts.skip(1).take(k - 1));
        assert(texts.skip(1)[k - 1] == texts[k]);
        assert(spec_list_tail(texts.take(k + 1)) =~= spec_list_tail(texts.take(k)) + (seq![44u8]
            + spec_quoted(texts[k])));
    }
}

/// Build the bulk-delete body over the listed principals.
pub fn bulk_delete_body(req: &BulkUsers) -> (r: Vec<u8>)
    requires
        req.wf(),
    ensures
        r@ == spec_bulk_body(req.users@),
{
    let mut out: Vec<u8> = Vec::new();
    out.push(123);
    out.push(34);
    out.push(117);
    out.push(115);
    out.push(101);
    out.push(114);
    out.push(115);
    out.push(34);
    out.push(58);
    out.push(91);
    let total = req.users.len();
    let ghost texts = spec_texts(req.users@);
    proof {
        assert(texts.len() == total);
    }
    let mut i: usize = 0;
    while i < total
        invariant
            i <= total,
            total == req.users@.len(),
            req.wf(),
            texts == spec_texts(req.users@),
            texts.len() == total,
            i == 0 ==> out@ == seq![123u8, 34, 117, 115, 101, 114, 115, 34, 58, 91],
            i > 0 ==> out@ == seq![123u8, 34, 117, 115, 101, 114, 115, 34, 58, 91] + spec_quoted(
                texts[0],
            ) + spec_list_tail(texts.skip(1).take(i - 1)),
        decreases total - i,
    {
        if i > 0 {
            out.push(44);
        }
        out.push(34);
        let text = req.users[i].to_text();
        out.extend_from_slice(text.as_slice());
        out.push(34);
        proof {
            assert(texts[i as int] == text_of(req.users@[i as int]@));
            if i == 0 {
                assert(out@ =~= seq![123u8, 34, 117, 115, 101, 114, 115, 34, 58, 91]
                    + spec_quoted(texts[0]) + spec_list_tail(texts.skip(1).take(0)));
            } else {
                lemma_list_tail_take_succ(texts.skip(1), i - 1);
                assert(texts.skip(1)[i - 1] == texts[i as int]);
                assert(out@ =~= seq![123u8, 34, 117, 115, 101, 114, 115, 34, 58, 91]
                    + spec_quoted(texts[0]) + spec_list_tail(texts.skip(1).take(i as int)));
            }
        }
        i += 1;
    }
    out.push(93);
    out.push(125);
    proof {
        if total == 0 {
            assert(out@ =~= spec_bulk_body(req.users@));
        } else {
            assert(texts.skip(1).take(total - 1) =~= texts.skip(1));
            assert(out@ =~= spec_bulk_body(req.users@));
        }
    }
    out
}

} // verus!
