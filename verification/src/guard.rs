//! The tenant-ownership guard.
//!
//! Records are fetched by their own id, whatever company owns them.  Before a
//! record is handed to a caller it passes this guard, which compares the
//! company that owns the record with the company of the caller's session.

use crate::errors::{answers, custom, AppError, AppErrorView, AppResult, CommonResponse};
use crate::utils::JwtClaims;
use vstd::prelude::*;

verus! {

/// A record together with the company that owns it.
#[derive(Debug, PartialEq, Eq)]
pub struct Owned<T> {
    pub company_id: i32,
    pub record: T,
}

/// The rejection that answers a request for another company's record.  It
/// says nothing of the record, not even that it exists.
pub open spec fn cross_tenant_denial() -> AppErrorView {
    custom(400, "Invalid request"@)
}

/// What the guard lets through: the record, if the session's company owns it.
pub open spec fn guarded<T>(e: Owned<T>, c: JwtClaims) -> Result<T, AppErrorView> {
    if e.company_id == c.company_id {
        Ok(e.record)
    } else {
        Err(cross_tenant_denial())
    }
}

/// The answer to a request for one record by its id: a missing record is
/// reported as such, under the text `missing`; a record that was found
/// passes the guard.
pub open spec fn fetch_outcome<T>(
    found: Option<Owned<T>>,
    c: JwtClaims,
    missing: Seq<char>,
) -> Result<T, AppErrorView> {
    match found {
        Some(e) => guarded(e, c),
        None => Err(custom(404, missing)),
    }
}

/// The answer to a request for one record by its id within the session's
/// company: a record of another company counts as missing.
pub open spec fn scoped_outcome<T>(
    found: Option<Owned<T>>,
    c: JwtClaims,
    missing: Seq<char>,
) -> Result<T, AppErrorView> {
    match found {
        Some(e) if e.company_id == c.company_id => Ok(e.record),
        _ => Err(custom(404, missing)),
    }
}

/// The records among `rows` that the company `company_id` owns, in the order
/// of `rows`.
pub open spec fn records_of<T>(rows: Seq<Owned<T>>, company_id: i32) -> Seq<T> {
    rows.filter_map(
        |e: Owned<T>|
            if e.company_id == company_id {
                Some(e.record)
            } else {
                None
            },
    )
}

/// The tenant-ownership guard: releases `e.record` to the session `c` only
/// if the session's company owns it.
pub fn cmp_company_id<T>(e: Owned<T>, c: &JwtClaims) -> (r: AppResult<CommonResponse<T>>)
    ensures
        answers(r, guarded(e, *c)),
{
    if e.company_id == c.company_id {
        CommonResponse::json_data(e.record)
    } else {
        Err(AppError::Custom { status_code: 400, error: "Invalid request".to_owned() })
    }
}

/// Answers a request for one record by its id, given what was found.
pub fn guard_fetched<T>(found: Option<Owned<T>>, c: &JwtClaims, missing: &str) -> (r: AppResult<
    CommonResponse<T>,
>)
    ensures
        answers(r, fetch_outcome(found, *c, missing@)),
{
    match found {
        Some(e) => cmp_company_id(e, c),
        None => Err(AppError::Custom { status_code: 404, error: missing.to_owned() }),
    }
}

/// Answers a request for one record by its id within the session's company,
/// given what was found.
pub fn guard_scoped<T>(found: Option<Owned<T>>, c: &JwtClaims, missing: &str) -> (r: AppResult<
    CommonResponse<T>,
>)
    ensures
        answers(r, scoped_outcome(found, *c, missing@)),
{
    match found {
        Some(e) if e.company_id == c.company_id => CommonResponse::json_data(e.record),
        _ => Err(AppError::Custom { status_code: 404, error: missing.to_owned() }),
    }
}

/// Keeps the records that the session's company owns.
pub fn guard_listed<T>(rows: Vec<Owned<T>>, c: &JwtClaims) -> (kept: Vec<T>)
    ensures
        kept@ == records_of(rows@, c.company_id),
{
    let mut kept: Vec<T> = Vec::new();
    let ghost all = rows@;
    for e in it: rows
        invariant
            it.seq() == all,
            kept@ == records_of(all.take(it.index() as int), c.company_id),
    {
        proof {
            let before = all.take(it.index() as int);
            let after = all.take(it.index() + 1);
            assert(after.drop_last() =~= before);
        }
        if e.company_id == c.company_id {
            kept.push(e.record);
        }
    }
    assert(all.take(all.len() as int) =~= all);
    kept
}

/// Tenant isolation.  A session of one company that asks for a record of
/// another company is refused.  The refusal is the same whatever the record
/// holds, and it is a rejection of the same kind as the one for an id under
/// which nothing is stored: a status code and a message, answered without a
/// payload.
pub proof fn lemma_tenant_isolation<T>(
    session: JwtClaims,
    theirs: Owned<T>,
    other: Owned<T>,
    missing: Seq<char>,
)
    requires
        theirs.company_id != session.company_id,
        other.company_id != session.company_id,
    ensures
        fetch_outcome(Some(theirs), session, missing) == Err::<T, AppErrorView>(
            cross_tenant_denial(),
        ),
        fetch_outcome(Some(theirs), session, missing) == fetch_outcome(
            Some(other),
            session,
            missing,
        ),
        fetch_outcome(None::<Owned<T>>, session, missing) matches Err(absent) && absent is Custom
            && absent.wf(),
        cross_tenant_denial() is Custom && cross_tenant_denial().wf(),
        scoped_outcome(Some(theirs), session, missing) == scoped_outcome(
            None::<Owned<T>>,
            session,
            missing,
        ),
{
}

/// What follows the guard: `next` works on the record that was let through,
/// and a rejection passes unchanged.
pub open spec fn and_then<T, U>(
    first: Result<T, AppErrorView>,
    next: spec_fn(T) -> Result<U, AppErrorView>,
) -> Result<U, AppErrorView> {
    match first {
        Ok(record) => next(record),
        Err(rejection) => Err(rejection),
    }
}

/// The guard's denial comes first.  Whatever is done with a record after the
/// guard, a request for another company's record ends in the guard's denial:
/// no later step can turn it into a success.  And the guard is idempotent: a
/// record that passed it passes it again, unchanged.
pub proof fn lemma_denial_comes_first<T, U>(
    session: JwtClaims,
    e: Owned<T>,
    next: spec_fn(T) -> Result<U, AppErrorView>,
)
    ensures
        e.company_id != session.company_id ==> and_then(guarded(e, session), next) == Err::<
            U,
            AppErrorView,
        >(cross_tenant_denial()),
        e.company_id == session.company_id ==> and_then(guarded(e, session), next) == next(
            e.record,
        ),
        guarded(e, session) matches Ok(record) ==> guarded(
            Owned { company_id: e.company_id, record },
            session,
        ) == guarded(e, session),
{
}

/// A list that passed the guard holds no record of another company: every
/// record in it comes from a row that the session's company owns.
pub proof fn lemma_listed_are_owned<T>(rows: Seq<Owned<T>>, company_id: i32, k: int)
    requires
        0 <= k < records_of(rows, company_id).len(),
    ensures
        exists|i: int|
            0 <= i < rows.len() && (#[trigger] rows[i]).company_id == company_id && rows[i].record
                == records_of(rows, company_id)[k],
    decreases rows.len(),
{
    let kept = records_of(rows, company_id);
    if rows.len() > 0 {
        let rest = rows.drop_last();
        let last = rows.last();
        if last.company_id == company_id && k == kept.len() - 1 {
            assert(rows[rows.len() - 1] == last);
        } else {
            lemma_listed_are_owned(rest, company_id, k);
            let i = choose|i: int|
                0 <= i < rest.len() && (#[trigger] rest[i]).company_id == company_id
                    && rest[i].record == records_of(rest, company_id)[k];
            assert(rows[i] == rest[i]);
        }
    }
}

} // verus!
