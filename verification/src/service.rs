//! The metadata service core and the storage model.
//!
//! The backend is a hash-oriented key-value store: one row per principal
//! text key, a single field holding the encoded record.  The backend itself
//! is outside the library; the service's decisions are verified here against
//! a model of it — a map from key bytes to stored bytes.  A write is gated
//! on the signature verdict, then encodes the record and names the key; a
//! read interprets what the backend returned.

use vstd::prelude::*;

use crate::auth::signature_auth;
use crate::codec::{canonical_encoding, decode_record, encode_record, spec_encode};
use crate::error::{AuthError, Error};
use crate::principal::{text_of, valid_principal_bytes, Principal};
use crate::types::{UserMetadata, UserMetadataSpec};

verus! {

/// What a write to the backend stores: the row key and the field value.
pub struct WritePlan {
    pub key: Vec<u8>,
    pub value: Vec<u8>,
}

/// The backend model: each existing row's single field, by key.
pub open spec fn store_get(store: Map<Seq<u8>, Seq<u8>>, key: Seq<u8>) -> Option<Seq<u8>> {
    if store.dom().contains(key) {
        Some(store[key])
    } else {
        None
    }
}

/// Overwriting a row's field, creating the row if absent.
pub open spec fn store_set(store: Map<Seq<u8>, Seq<u8>>, key: Seq<u8>, value: Seq<u8>) -> Map<
    Seq<u8>,
    Seq<u8>,
> {
    store.insert(key, value)
}

/// Removing a row; removing an absent row is no change.
pub open spec fn store_delete(store: Map<Seq<u8>, Seq<u8>>, key: Seq<u8>) -> Map<Seq<u8>, Seq<u8>> {
    store.remove(key)
}

/// What one write request does to the backend: nothing when the signature
/// was rejected, an overwrite of the principal's row when it verified.
pub open spec fn spec_set_transition(
    store: Map<Seq<u8>, Seq<u8>>,
    principal: Seq<u8>,
    meta: UserMetadataSpec,
    sig_ok: bool,
) -> Map<Seq<u8>, Seq<u8>> {
    if sig_ok {
        store_set(store, text_of(principal), spec_encode(meta))
    } else {
        store
    }
}

/// The verified core of a write.
///
/// The signature verdict (from the outside identity capability, judged over
/// the canonical message for this principal and record) gates everything: a
/// rejected signature short-circuits with `InvalidSignature` before any
/// storage effect, a verified one yields exactly the plan that
/// `spec_set_transition` describes.
pub fn set_user_metadata(
    principal: &Principal,
    metadata: &UserMetadata,
    signature_verified: bool,
) -> (r: Result<WritePlan, Error>)
    requires
        principal.wf(),
        metadata.wf(),
    ensures
        signature_verified <==> r is Ok,
        r matches Ok(plan) ==> plan.key@ == text_of(principal@) && plan.value@ == spec_encode(
            metadata@,
        ) && canonical_encoding(plan.value@, metadata@),
        !signature_verified ==> r == Err::<WritePlan, Error>(
            Error::Auth(AuthError::InvalidSignature),
        ),
{
    match signature_auth(signature_verified) {
        Err(e) => Err(Error::Auth(e)),
        Ok(()) => {
            let key = principal.to_text();
            let value = encode_record(metadata);
            Ok(WritePlan { key, value })
        },
    }
}

/// The verified core of a read: interpret what the backend returned for the
/// principal's row.
///
/// An absent row is a successful empty result, never an error; a present row
/// decodes, and a row that does not decode is a serialization error, not
/// absence.  On any row that a verified write stored, the read yields
/// exactly the written record.
pub fn get_user_metadata(fetched: Option<&Vec<u8>>) -> (r: Result<Option<UserMetadata>, Error>)
    ensures
        fetched matches None ==> r == Ok::<Option<UserMetadata>, Error>(None),
        r matches Ok(None) ==> fetched is None,
        fetched matches Some(v) ==> match r {
            Ok(Some(m)) => m.wf() && v@ == spec_encode(m@),
            Ok(None) => false,
            Err(e) => e == Error::Serialization,
        },
        fetched matches Some(v) ==> forall|ms: UserMetadataSpec|
            #[trigger] canonical_encoding(v@, ms) ==> (r matches Ok(Some(m)) && m@ == ms),
{
    match fetched {
        None => Ok(None),
        Some(v) => match decode_record(v.as_slice()) {
            Ok(m) => Ok(Some(m)),
            Err(e) => Err(e),
        },
    }
}

/// Interpret a modern write request's envelope: the claimed principal
/// arrives as raw bytes, the record is optional on the wire.
///
/// A byte string too long for a principal is rejected as an invalid
/// principal; a missing record is rejected as missing metadata; otherwise
/// both come back as values.
pub fn decode_set_request(principal_bytes: &[u8], metadata: Option<UserMetadata>) -> (r: Result<
    (Principal, UserMetadata),
    Error,
>)
    ensures
        principal_bytes@.len() > 29 ==> r == Err::<(Principal, UserMetadata), Error>(
            Error::InvalidPrincipal,
        ),
        principal_bytes@.len() <= 29 && metadata is None ==> r == Err::<
            (Principal, UserMetadata),
            Error,
        >(Error::MetadataMissing),
        principal_bytes@.len() <= 29 && (metadata matches Some(m)) ==> (r matches Ok(pair)
            && pair.0@ == principal_bytes@ && pair.0.wf() && pair.1 == metadata->Some_0),
{
    let principal = Principal::try_from_slice(principal_bytes)?;
    match metadata {
        None => Err(Error::MetadataMissing),
        Some(m) => Ok((principal, m)),
    }
}

/// A verified write followed by a read of the same principal sees exactly
/// the stored encoding of the written record; `get_user_metadata` then
/// yields that record.
pub proof fn lemma_set_then_get(
    store: Map<Seq<u8>, Seq<u8>>,
    principal: Seq<u8>,
    meta: UserMetadataSpec,
)
    ensures
        store_get(spec_set_transition(store, principal, meta, true), text_of(principal)) == Some(
            spec_encode(meta),
        ),
{
}

/// A rejected write is no transition at all: every row, the claimed
/// principal's included, reads exactly as before.
pub proof fn lemma_rejected_set_changes_nothing(
    store: Map<Seq<u8>, Seq<u8>>,
    principal: Seq<u8>,
    meta: UserMetadataSpec,
    key: Seq<u8>,
)
    ensures
        store_get(spec_set_transition(store, principal, meta, false), key) == store_get(store, key),
{
}

/// A principal that was never written has no row: a read of it is the
/// successful empty result.
pub proof fn lemma_never_written_reads_empty(key: Seq<u8>)
    ensures
        store_get(Map::<Seq<u8>, Seq<u8>>::empty(), key) == None::<Seq<u8>>,
{
}

/// Writes are whole-row overwrites with no merge: of two writes to the same
/// principal, the one the backend applied last is what a read sees.
pub proof fn lemma_last_write_wins(
    store: Map<Seq<u8>, Seq<u8>>,
    principal: Seq<u8>,
    meta1: UserMetadataSpec,
    meta2: UserMetadataSpec,
)
    ensures
        store_get(
            spec_set_transition(
                spec_set_transition(store, principal, meta1, true),
                principal,
                meta2,
                true,
            ),
            text_of(principal),
        ) == Some(spec_encode(meta2)),
{
}

/// A write to one principal's row leaves every other row unchanged.
pub proof fn lemma_set_other_keys_unchanged(
    store: Map<Seq<u8>, Seq<u8>>,
    principal: Seq<u8>,
    meta: UserMetadataSpec,
    key: Seq<u8>,
)
    requires
        key != text_of(principal),
    ensures
        store_get(spec_set_transition(store, principal, meta, true), key) == store_get(store, key),
{
}

} // verus!
