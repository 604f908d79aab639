//! Requests on assets, their locations and their statuses.
//!
//! What is created belongs to the company of the session that asks, and what
//! is fetched by id passes the tenant-ownership guard.

use crate::errors::{answers, AppResult, CommonResponse};
use crate::guard::{fetch_outcome, guard_fetched, guard_listed, records_of, Owned};
use crate::utils::JwtClaims;
use vstd::prelude::*;

verus! {

/// What is sent to create an asset.
#[derive(Clone, Debug, PartialEq, Eq)]
pub struct AssetCreateInfo {
    pub asset_code: String,
    pub asset_name: String,
    pub asset_description: String,
    pub asset_location_id: i32,
    pub asset_status_id: i32,
    pub customize_fileds_1: Option<String>,
    pub customize_fileds_2: Option<String>,
    pub customize_fileds_3: Option<String>,
    pub customize_fileds_4: Option<String>,
    pub customize_fileds_5: Option<String>,
}

/// The asset to create for `payload`: it belongs to the session's company.
pub fn create_asset(c: &JwtClaims, payload: AssetCreateInfo) -> (new: Owned<AssetCreateInfo>)
    ensures
        new.company_id == c.company_id,
        new.record == payload,
{
    Owned { company_id: c.company_id, record: payload }
}

/// Answers a request for one asset by its id, given what was found.
pub fn get_asset<T>(found: Option<Owned<T>>, c: &JwtClaims) -> (r: AppResult<CommonResponse<T>>)
    ensures
        answers(r, fetch_outcome(found, *c, "asset not found"@)),
{
    guard_fetched(found, c, "asset not found")
}

/// What is sent to create a location.
#[derive(Clone, Debug, PartialEq, Eq)]
pub struct LocationCreateInfo {
    pub location_code: String,
    pub location_name: String,
    pub location_description: String,
    pub parent_id: Option<i32>,
}

/// The location to create for `payload`: it belongs to the session's
/// company.
pub fn create_location(c: &JwtClaims, payload: LocationCreateInfo) -> (new: Owned<
    LocationCreateInfo,
>)
    ensures
        new.company_id == c.company_id,
        new.record == payload,
{
    Owned { company_id: c.company_id, record: payload }
}

/// Answers a request for one location by its id, given what was found.
pub fn get_location<T>(found: Option<Owned<T>>, c: &JwtClaims) -> (r: AppResult<CommonResponse<T>>)
    ensures
        answers(r, fetch_outcome(found, *c, "location not found"@)),
{
    guard_fetched(found, c, "location not found")
}

/// Answers a request for the locations of the session's company, given the
/// rows that were read: the locations that the company owns, in the order
/// they were read, and no other.
pub fn get_nested_location<T>(rows: Vec<Owned<T>>, c: &JwtClaims) -> (r: AppResult<
    CommonResponse<Vec<T>>,
>)
    ensures
        ({
            &&& r matches Ok(envelope)
            &&& envelope.error is None
            &&& envelope.data matches Some(listed)
            &&& listed@ == records_of(rows@, c.company_id)
        }),
{
    CommonResponse::json_data(guard_listed(rows, c))
}

/// What is sent to create a status.
#[derive(Clone, Debug, PartialEq, Eq)]
pub struct StatusCreateInfo {
    pub status_code: String,
    pub status_name: String,
}

/// The status to create for `payload`: it belongs to the session's company.
pub fn create_status(c: &JwtClaims, payload: StatusCreateInfo) -> (new: Owned<StatusCreateInfo>)
    ensures
        new.company_id == c.company_id,
        new.record == payload,
{
    Owned { company_id: c.company_id, record: payload }
}

/// Answers a request for one status by its id, given what was found.
pub fn get_status<T>(found: Option<Owned<T>>, c: &JwtClaims) -> (r: AppResult<CommonResponse<T>>)
    ensures
        answers(r, fetch_outcome(found, *c, "status not found"@)),
{
    guard_fetched(found, c, "status not found")
}

} // verus!
