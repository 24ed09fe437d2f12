//! The value types the service stores and exchanges.

use vstd::prelude::*;

use crate::principal::Principal;

verus! {

/// Spec-level shape of a metadata record: the owning canister's principal
/// bytes and the display name's UTF-8 bytes.
pub struct UserMetadataSpec {
    pub canister: Seq<u8>,
    pub name: Seq<u8>,
}

/// One user's metadata record: the owning canister address and a display
/// name.  Immutable value type; overwritten as a whole, never merged.
#[derive(Clone, Debug, PartialEq, Eq, Hash)]
pub struct UserMetadata {
    pub user_canister_id: Principal,
    pub user_name: Vec<u8>,
}

impl View for UserMetadata {
    type V = UserMetadataSpec;

    open spec fn view(&self) -> UserMetadataSpec {
        UserMetadataSpec { canister: self.user_canister_id@, name: self.user_name@ }
    }
}

impl UserMetadata {
    /// Well-formed records hold a well-formed canister principal.
    pub open spec fn wf(&self) -> bool {
        self.user_canister_id.wf()
    }

    pub fn new(user_canister_id: Principal, user_name: Vec<u8>) -> (r: UserMetadata)
        ensures
            r@ == (UserMetadataSpec { canister: user_canister_id@, name: user_name@ }),
            r.wf() == user_canister_id.wf(),
    {
        UserMetadata { user_canister_id, user_name }
    }
}

/// A write request: the record to store and the caller's signature over its
/// canonical encoding.  The signature payload is opaque to the library; the
/// outside verification capability judges it.
#[derive(Clone, Debug, PartialEq, Eq)]
pub struct SetUserMetadataReq {
    pub metadata: UserMetadata,
    pub signature: Vec<u8>,
}

impl SetUserMetadataReq {
    pub fn new(metadata: UserMetadata, signature: Vec<u8>) -> (r: SetUserMetadataReq)
        ensures
            r.metadata@ == metadata@,
            r.signature@ == signature@,
            r.metadata.wf() == metadata.wf(),
    {
        SetUserMetadataReq { metadata, signature }
    }
}

/// A bulk delete request: the principals whose records to remove.
/// Duplicates are permitted and processed independently.
#[derive(Clone, Debug, PartialEq, Eq)]
pub struct BulkUsers {
    pub users: Vec<Principal>,
}

impl BulkUsers {
    /// Every listed principal is well formed.
    pub open spec fn wf(&self) -> bool {
        forall|i: int| 0 <= i < self.users@.len() ==> (#[trigger] self.users@[i]).wf()
    }

    pub fn new(users: Vec<Principal>) -> (r: BulkUsers)
        ensures
            r.users@ == users@,
    {
        BulkUsers { users }
    }
}

} // verus!
