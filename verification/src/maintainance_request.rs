//! Requests on maintenance requests and on the lists they are classified by:
//! status, category, priority, failure impact and failure mode.
//!
//! What is created belongs to the company of the session that asks, and what
//! is fetched by id passes the tenant-ownership guard.

use crate::errors::{answers, AppResult, CommonResponse};
use crate::guard::{fetch_outcome, guard_fetched, Owned};
use crate::utils::JwtClaims;
use vstd::prelude::*;

verus! {

/// What is sent to create a maintenance request.
#[derive(Clone, Debug, PartialEq, Eq)]
pub struct CreateMrInfo {
    pub asset_id: i32,
    pub mr_name: String,
    pub mr_status_id: i32,
    pub mr_category_id: i32,
    pub mr_priority_id: i32,
    pub mr_failure_impact_id: i32,
    pub mr_failure_mode_id: i32,
    pub mr_error_code: String,
    pub mr_description: String,
}

/// A maintenance request to create: the company that owns it, the user who
/// raised it, and what was sent.
#[derive(Debug, PartialEq, Eq)]
pub struct NewMr {
    pub company_id: i32,
    pub user_id: i32,
    pub request: CreateMrInfo,
}

/// The maintenance request to create for `payload`: it belongs to the
/// session's company and is raised by the session's user.
pub fn create_mr(c: &JwtClaims, payload: CreateMrInfo) -> (new: NewMr)
    ensures
        new.company_id == c.company_id,
        new.user_id == c.user_id,
        new.request == payload,
{
    NewMr { company_id: c.company_id, user_id: c.user_id, request: payload }
}

/// Answers a request for one maintenance request by its id, given what was
/// found.
pub fn get_mr<T>(found: Option<Owned<T>>, c: &JwtClaims) -> (r: AppResult<CommonResponse<T>>)
    ensures
        answers(r, fetch_outcome(found, *c, "mr not found"@)),
{
    guard_fetched(found, c, "mr not found")
}

/// What is sent to create a status of maintenance requests.
#[derive(Clone, Debug, PartialEq, Eq)]
pub struct CreateMrStatusInfo {
    pub status_code: String,
    pub status_name: String,
}

/// The status to create for `payload`: it belongs to the session's company.
pub fn create_mr_status(c: &JwtClaims, payload: CreateMrStatusInfo) -> (new: Owned<
    CreateMrStatusInfo,
>)
    ensures
        new.company_id == c.company_id,
        new.record == payload,
{
    Owned { company_id: c.company_id, record: payload }
}

/// Answers a request for one status by its id, given what was found.
pub fn get_mr_status<T>(found: Option<Owned<T>>, c: &JwtClaims) -> (r: AppResult<CommonResponse<T>>)
    ensures
        answers(r, fetch_outcome(found, *c, "mr not found"@)),
{
    guard_fetched(found, c, "mr not found")
}

/// What is sent to create a category of maintenance requests.
#[derive(Clone, Debug, PartialEq, Eq)]
pub struct CreateMrCategoryInfo {
    pub category_code: String,
    pub category_name: String,
}

/// The category to create for `payload`: it belongs to the session's
/// company.
pub fn create_mr_category(c: &JwtClaims, payload: CreateMrCategoryInfo) -> (new: Owned<
    CreateMrCategoryInfo,
>)
    ensures
        new.company_id == c.company_id,
        new.record == payload,
{
    Owned { company_id: c.company_id, record: payload }
}

/// Answers a request for one category by its id, given what was found.
pub fn get_mr_category<T>(found: Option<Owned<T>>, c: &JwtClaims) -> (r: AppResult<
    CommonResponse<T>,
>)
    ensures
        answers(r, fetch_outcome(found, *c, "mr not found"@)),
{
    guard_fetched(found, c, "mr not found")
}

/// What is sent to create a priority of maintenance requests.
#[derive(Clone, Debug, PartialEq, Eq)]
pub struct CreateMrPriorityInfo {
    pub priority_code: String,
    pub priority_name: String,
}

/// The priority to create for `payload`: it belongs to the session's
/// company.
pub fn create_mr_priority(c: &JwtClaims, payload: CreateMrPriorityInfo) -> (new: Owned<
    CreateMrPriorityInfo,
>)
    ensures
        new.company_id == c.company_id,
        new.record == payload,
{
    Owned { company_id: c.company_id, record: payload }
}

/// Answers a request for one priority by its id, given what was found.
pub fn get_mr_priority<T>(found: Option<Owned<T>>, c: &JwtClaims) -> (r: AppResult<
    CommonResponse<T>,
>)
    ensures
        answers(r, fetch_outcome(found, *c, "mr not found"@)),
{
    guard_fetched(found, c, "mr not found")
}

/// What is sent to create a failure impact.
#[derive(Clone, Debug, PartialEq, Eq)]
pub struct CreateMrFailureImpactInfo {
    pub failure_impact_code: String,
    pub failure_impact_name: String,
}

/// The failure impact to create for `payload`: it belongs to the session's
/// company.
pub fn create_mr_failure_impact(c: &JwtClaims, payload: CreateMrFailureImpactInfo) -> (new: Owned<
    CreateMrFailureImpactInfo,
>)
    ensures
        new.company_id == c.company_id,
        new.record == payload,
{
    Owned { company_id: c.company_id, record: payload }
}

/// Answers a request for one failure impact by its id, given what was found.
pub fn get_mr_failure_impact<T>(found: Option<Owned<T>>, c: &JwtClaims) -> (r: AppResult<
    CommonResponse<T>,
>)
    ensures
        answers(r, fetch_outcome(found, *c, "mr not found"@)),
{
    guard_fetched(found, c, "mr not found")
}

/// What is sent to create a failure mode.
#[derive(Clone, Debug, PartialEq, Eq)]
pub struct CreateMrFailureModeInfo {
    pub failure_mode_code: String,
    pub failure_mode_name: String,
}

/// The failure mode to create for `payload`: it belongs to the session's
/// company.
pub fn create_mr_failure_mode(c: &JwtClaims, payload: CreateMrFailureModeInfo) -> (new: Owned<
    CreateMrFailureModeInfo,
>)
    ensures
        new.company_id == c.company_id,
        new.record == payload,
{
    Owned { company_id: c.company_id, record: payload }
}

/// Answers a request for one failure mode by its id, given what was found.
pub fn get_mr_failure_mode<T>(found: Option<Owned<T>>, c: &JwtClaims) -> (r: AppResult<
    CommonResponse<T>,
>)
    ensures
        answers(r, fetch_outcome(found, *c, "mr not found"@)),
{
    guard_fetched(found, c, "mr not found")
}

} // verus!
