//! The bulk deleter: token-gated planning, bounded fan-out, and aggregation
//! of per-key outcomes.
//!
//! One delete per listed principal, each independent: no outcome
//! short-circuits another, and the final result is success only if every
//! key succeeded, otherwise every failing key with its reason.  The fan-out
//! runs under a fixed application-level ceiling, planned here as consecutive
//! batches; unbounded fan-out is a correctness violation, not a tuning
//! choice.

use vstd::prelude::*;

use crate::auth::JwtInterceptor;
use crate::error::{AuthError, Error, StoreError};
use crate::principal::{text_of, valid_principal_bytes};
use crate::service::store_get;
use crate::types::BulkUsers;

verus! {

/// The most deletes in flight at once for one bulk request; this bound is
/// distinct from, and additional to, whatever the connection pool imposes.
pub const BULK_DELETE_CONCURRENCY: usize = 100;

/// Gate a bulk delete on the bearer token, then name each listed
/// principal's row key.
///
/// Succeeds exactly when the token check does; the keys come out in request
/// order, one per listed principal, duplicates included.  Each key
/// determines its principal, so distinct principals get distinct keys.
pub fn plan_bulk_delete(
    interceptor: &JwtInterceptor,
    auth_header: Option<&Vec<u8>>,
    req: &BulkUsers,
) -> (r: Result<Vec<Vec<u8>>, Error>)
    requires
        req.wf(),
    ensures
        (auth_header matches None) <==> r == Err::<Vec<Vec<u8>>, Error>(
            Error::Auth(AuthError::TokenMissing),
        ),
        r matches Err(e) ==> e matches Error::Auth(a) && (a == AuthError::TokenMissing || a
            == AuthError::TokenMalformed || a == AuthError::TokenInvalid),
        r matches Ok(keys) ==> {
            &&& keys@.len() == req.users@.len()
            &&& forall|i: int| 0 <= i < keys@.len()
                ==> (#[trigger] keys@[i])@ == text_of(req.users@[i]@)
            &&& forall|i: int, b2: Seq<u8>|
                #![trigger keys@[i], text_of(b2)]
                0 <= i < keys@.len() && valid_principal_bytes(b2) && text_of(b2) == keys@[i]@
                    ==> b2 == req.users@[i]@
        },
{
    if let Err(e) = interceptor.check_auth(auth_header) {
        return Err(Error::Auth(e));
    }
    let total = req.users.len();
    let mut keys: Vec<Vec<u8>> = Vec::new();
    let mut i: usize = 0;
    while i < total
        invariant
            i <= total,
            total == req.users@.len(),
            req.wf(),
            keys@.len() == i,
            forall|j: int| 0 <= j < i ==> (#[trigger] keys@[j])@ == text_of(req.users@[j]@),
            forall|j: int, b2: Seq<u8>|
                #![trigger keys@[j], text_of(b2)]
                0 <= j < i && valid_principal_bytes(b2) && text_of(b2) == keys@[j]@
                    ==> b2 == req.users@[j]@,
        decreases total - i,
    {
        let key = req.users[i].to_text();
        keys.push(key);
        i += 1;
    }
    Ok(keys)
}

/// Split `total` work items into consecutive batches of at most `limit`
/// each: the bounded fan-out plan.  The batches cover `0..total` in order,
/// none empty.
pub fn chunk_ranges(total: usize, limit: usize) -> (r: Vec<(usize, usize)>)
    requires
        limit > 0,
    ensures
        (r@.len() == 0) <==> (total == 0),
        r@.len() > 0 ==> r@[0].0 == 0 && r@[r@.len() - 1].1 == total,
        forall|i: int| 0 <= i < r@.len()
            ==> (#[trigger] r@[i]).0 < r@[i].1 <= total && r@[i].1 - r@[i].0 <= limit,
        forall|i: int| 0 <= i < r@.len() - 1
            ==> (#[trigger] r@[i]).1 == r@[i + 1].0 && r@[i].1 - r@[i].0 == limit,
{
    let mut out: Vec<(usize, usize)> = Vec::new();
    let mut start: usize = 0;
    while start < total
        invariant
            limit > 0,
            start <= total,
            (out@.len() == 0) <==> (start == 0),
            out@.len() > 0 ==> out@[0].0 == 0 && out@[out@.len() - 1].1 == start,
            forall|i: int| 0 <= i < out@.len()
                ==> (#[trigger] out@[i]).0 < out@[i].1 <= total && out@[i].1 - out@[i].0 <= limit,
            forall|i: int| 0 <= i < out@.len() - 1
                ==> (#[trigger] out@[i]).1 == out@[i + 1].0 && out@[i].1 - out@[i].0 == limit,
            out@.len() > 0 && out@[out@.len() - 1].1 < total
                ==> out@[out@.len() - 1].1 - out@[out@.len() - 1].0 == limit,
        decreases total - start,
    {
        let end = if total - start > limit {
            start + limit
        } else {
            total
        };
        out.push((start, end));
        start = end;
    }
    out
}

/// The failing outcomes, in report order: every failing key with its
/// reason, each occurrence exactly once.
pub open spec fn spec_failures(o: Seq<(Vec<u8>, Result<(), StoreError>)>) -> Seq<
    (Seq<u8>, StoreError),
>
    decreases o.len(),
{
    if o.len() == 0 {
        Seq::empty()
    } else {
        let rest = spec_failures(o.skip(1));
        match o[0].1 {
            Result::Err(e) => seq![(o[0].0@, e)] + rest,
            Result::Ok(_) => rest,
        }
    }
}

/// The spec-level view of an aggregated failure list.
pub open spec fn failures_view(fails: Seq<(Vec<u8>, StoreError)>) -> Seq<(Seq<u8>, StoreError)> {
    fails.map_values(|p: (Vec<u8>, StoreError)| (p.0@, p.1))
}

/// Aggregate the per-key outcomes of one bulk delete.
///
/// Success only if every key succeeded; otherwise the aggregate failure
/// lists exactly the failing keys with their reasons, in report order, and
/// is never silently swallowed.
pub fn aggregate_outcomes(outcomes: &Vec<(Vec<u8>, Result<(), StoreError>)>) -> (r: Result<
    (),
    Error,
>)
    ensures
        (r is Ok) <==> (forall|i: int| 0 <= i < outcomes@.len()
            ==> (#[trigger] outcomes@[i]).1 is Ok),
        r matches Err(e) ==> e matches Error::BulkDelete(fails) && failures_view(fails@)
            == spec_failures(outcomes@) && fails@.len() > 0,
{
    let total = outcomes.len();
    let mut fails: Vec<(Vec<u8>, StoreError)> = Vec::new();
    let mut i: usize = 0;
    while i < total
        invariant
            i <= total,
            total == outcomes@.len(),
            failures_view(fails@) == spec_failures(outcomes@.take(i as int)),
            (fails@.len() == 0) <==> (forall|j: int| 0 <= j < i
                ==> (#[trigger] outcomes@[j]).1 is Ok),
        decreases total - i,
    {
        let ghost prev = fails@;
        match &outcomes[i].1 {
            Result::Ok(_) => (),
            Result::Err(e) => {
                let key = vstd::slice::slice_to_vec(outcomes[i].0.as_slice());
                fails.push((key, *e));
            },
        }
        proof {
            lemma_spec_failures_take_succ(outcomes@, i as int);
            assert(failures_view(fails@) =~= spec_failures(outcomes@.take(i + 1)));
        }
        i += 1;
    }
    proof {
        assert(outcomes@.take(total as int) =~= outcomes@);
    }
    if fails.len() == 0 {
        Ok(())
    } else {
        Err(Error::BulkDelete(fails))
    }
}

/// One more outcome extends the failure list by its failure, if any.
proof fn lemma_spec_failures_take_succ(o: Seq<(Vec<u8>, Result<(), StoreError>)>, k: int)
    requires
        0 <= k < o.len(),
    ensures
        spec_failures(o.take(k + 1)) == if o[k].1 is Err {
            spec_failures(o.take(k)) + seq![(o[k].0@, o[k].1->Err_0)]
        } else {
            spec_failures(o.take(k))
        },
    decreases k,
{
    if k == 0 {
        assert(o.take(1).len() == 1);
        assert(o.take(1)[0] == o[0]);
        assert(o.take(1).skip(1) =~= Seq::<(Vec<u8>, Result<(), StoreError>)>::empty());
        assert(o.take(0) =~= Seq::<(Vec<u8>, Result<(), StoreError>)>::empty());
    } else {
        lemma_spec_failures_take_succ(o.skip(1), k - 1);
        assert(o.take(k + 1).skip(1) =~= o.skip(1).take(k));
        assert(o.take(k).skip(1) =~= o.skip(1).take(k - 1));
        assert(o.take(k + 1)[0] == o[0]);
        assert(o.take(k)[0] == o[0]);
        assert(o.skip(1)[k - 1] == o[k]);
    }
}

/// Deleting a batch of keys from the store model, one row per key.
pub open spec fn store_delete_all(store: Map<Seq<u8>, Seq<u8>>, keys: Seq<Seq<u8>>) -> Map<
    Seq<u8>,
    Seq<u8>,
>
    decreases keys.len(),
{
    if keys.len() == 0 {
        store
    } else {
        store_delete_all(store.remove(keys[0]), keys.skip(1))
    }
}

/// After a bulk delete, every listed key's row is gone and every other row
/// is untouched: a read of a deleted principal is the successful empty
/// result, and per-key deletes commute with one another.
pub proof fn lemma_bulk_delete_removes_all(
    store: Map<Seq<u8>, Seq<u8>>,
    keys: Seq<Seq<u8>>,
    k: Seq<u8>,
)
    ensures
        keys.contains(k) ==> store_get(store_delete_all(store, keys), k) == None::<Seq<u8>>,
        !keys.contains(k) ==> store_get(store_delete_all(store, keys), k) == store_get(store, k),
    decreases keys.len(),
{
    if keys.len() > 0 {
        lemma_bulk_delete_removes_all(store.remove(keys[0]), keys.skip(1), k);
        if keys.contains(k) && k != keys[0] {
            let i = choose|i: int| 0 <= i < keys.len() && keys[i] == k;
            assert(keys.skip(1)[i - 1] == k);
            assert(keys.skip(1).contains(k));
        }
        if !keys.contains(k) {
            assert(keys[0] != k);
            assert forall|i: int| 0 <= i < keys.skip(1).len() implies keys.skip(1)[i] != k by {
                assert(keys.skip(1)[i] == keys[i + 1]);
            }
            assert(!keys.skip(1).contains(k));
        }
    }
}

/// When exactly one outcome failed, the aggregate failure list holds
/// exactly that key with its reason, once.
pub proof fn lemma_single_failure(o: Seq<(Vec<u8>, Result<(), StoreError>)>, j: int)
    requires
        0 <= j < o.len(),
        o[j].1 is Err,
        forall|i: int| 0 <= i < o.len() && i != j ==> (#[trigger] o[i]).1 is Ok,
    ensures
        spec_failures(o) == seq![(o[j].0@, o[j].1->Err_0)],
    decreases o.len(),
{
    if j == 0 {
        lemma_spec_failures_all_ok(o.skip(1));
        assert(spec_failures(o) =~= seq![(o[0].0@, o[0].1->Err_0)]);
    } else {
        assert forall|i: int| 0 <= i < o.skip(1).len() && i != j - 1 implies (#[trigger] o.skip(
            1,
        )[i]).1 is Ok by {
            assert(o.skip(1)[i] == o[i + 1]);
        }
        assert(o.skip(1)[j - 1] == o[j]);
        lemma_single_failure(o.skip(1), j - 1);
        assert(o[0].1 is Ok);
    }
}

/// With every outcome successful there are no failures to report.
pub proof fn lemma_spec_failures_all_ok(o: Seq<(Vec<u8>, Result<(), StoreError>)>)
    requires
        forall|i: int| 0 <= i < o.len() ==> (#[trigger] o[i]).1 is Ok,
    ensures
        spec_failures(o) == Seq::<(Seq<u8>, StoreError)>::empty(),
    decreases o.len(),
{
    if o.len() > 0 {
        assert forall|i: int| 0 <= i < o.skip(1).len() implies (#[trigger] o.skip(1)[i]).1
            is Ok by {
            assert(o.skip(1)[i] == o[i + 1]);
        }
        lemma_spec_failures_all_ok(o.skip(1));
        assert(spec_failures(o) =~= Seq::<(Seq<u8>, StoreError)>::empty());
    }
}

} // verus!
