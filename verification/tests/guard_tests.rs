use maintenance_core::assets::{
    create_asset, create_location, create_status, get_asset, get_location, get_nested_location,
    get_status, AssetCreateInfo, LocationCreateInfo, StatusCreateInfo,
};
use maintenance_core::errors::{AppError, CommonResponse};
use maintenance_core::guard::{cmp_company_id, guard_fetched, guard_listed, guard_scoped, Owned};
use maintenance_core::maintainance_request::{
    create_mr, create_mr_category, create_mr_failure_impact, create_mr_failure_mode,
    create_mr_priority, create_mr_status, get_mr, get_mr_category, get_mr_failure_impact,
    get_mr_failure_mode, get_mr_priority, get_mr_status, CreateMrCategoryInfo,
    CreateMrFailureImpactInfo, CreateMrFailureModeInfo, CreateMrInfo, CreateMrPriorityInfo,
    CreateMrStatusInfo, NewMr,
};
use maintenance_core::user::user_details;
use maintenance_core::utils::JwtClaims;

fn session(company_id: i32) -> JwtClaims {
    JwtClaims { user_id: 10, company_id, role_id: 3, exp: 2_000_000_000 }
}

fn owned(company_id: i32, record: &str) -> Owned<String> {
    Owned { company_id, record: record.to_string() }
}

fn denial() -> AppError {
    AppError::Custom { status_code: 400, error: "Invalid request".to_string() }
}

fn not_found(text: &str) -> AppError {
    AppError::Custom { status_code: 404, error: text.to_string() }
}

fn delivered(record: &str) -> CommonResponse<String> {
    CommonResponse { error: None, data: Some(record.to_string()) }
}

#[test]
fn guard_releases_a_record_to_its_company() {
    assert_eq!(cmp_company_id(owned(1, "pump"), &session(1)), Ok(delivered("pump")));
}

#[test]
fn guard_refuses_a_record_of_another_company() {
    assert_eq!(cmp_company_id(owned(2, "pump"), &session(1)), Err(denial()));
    assert_eq!(cmp_company_id(owned(1, "pump"), &session(2)), Err(denial()));
    assert_eq!(cmp_company_id(owned(i32::MIN, "pump"), &session(i32::MAX)), Err(denial()));
}

#[test]
fn denial_does_not_depend_on_the_record() {
    let first = cmp_company_id(owned(2, "pump"), &session(1));
    let second = cmp_company_id(owned(3, "a quite different record"), &session(1));
    assert_eq!(first, second);
}

#[test]
fn denial_comes_before_anything_done_with_the_record() {
    let mut touched = false;
    let r = cmp_company_id(owned(2, "pump"), &session(1)).map(|envelope| {
        touched = true;
        envelope
    });
    assert_eq!(r, Err(denial()));
    assert!(!touched);
    let mut touched = false;
    let r = cmp_company_id(owned(1, "pump"), &session(1)).map(|envelope| {
        touched = true;
        envelope
    });
    assert_eq!(r, Ok(delivered("pump")));
    assert!(touched);
}

#[test]
fn guard_applied_twice_is_the_guard() {
    let once = cmp_company_id(owned(1, "pump"), &session(1)).unwrap();
    let again = cmp_company_id(
        Owned { company_id: 1, record: once.data.unwrap() },
        &session(1),
    );
    assert_eq!(again, Ok(delivered("pump")));
}

#[test]
fn denial_and_absence_have_the_same_shape() {
    let refused = guard_fetched(Some(owned(2, "pump")), &session(1), "asset not found")
        .unwrap_err()
        .into_response();
    let absent =
        guard_fetched(None::<Owned<String>>, &session(2), "asset not found").unwrap_err().into_response();
    assert_eq!(refused.body.error.is_some(), absent.body.error.is_some());
    assert_eq!(refused.body.data, absent.body.data);
    assert_eq!(refused.body.data, None);
    assert_eq!(refused.status, 400);
    assert_eq!(refused.body.error.as_deref(), Some("Invalid request"));
    assert_eq!(absent.status, 404);
}

#[test]
fn fetched_record_passes_the_guard() {
    assert_eq!(guard_fetched(Some(owned(1, "pump")), &session(1), "gone"), Ok(delivered("pump")));
    assert_eq!(guard_fetched(Some(owned(2, "pump")), &session(1), "gone"), Err(denial()));
    assert_eq!(guard_fetched(None::<Owned<String>>, &session(1), "gone"), Err(not_found("gone")));
}

#[test]
fn scoped_record_of_another_company_is_absent() {
    assert_eq!(guard_scoped(Some(owned(1, "alice")), &session(1), "gone"), Ok(delivered("alice")));
    assert_eq!(guard_scoped(Some(owned(2, "bob")), &session(1), "gone"), Err(not_found("gone")));
    assert_eq!(guard_scoped(None::<Owned<String>>, &session(1), "gone"), Err(not_found("gone")));
}

#[test]
fn listed_records_are_those_of_the_company_in_order() {
    let rows = vec![owned(1, "a"), owned(2, "b"), owned(1, "c"), owned(3, "d"), owned(1, "e")];
    assert_eq!(guard_listed(rows, &session(1)), vec!["a".to_string(), "c".to_string(), "e".to_string()]);
    let rows = vec![owned(2, "b"), owned(3, "d")];
    assert_eq!(guard_listed(rows, &session(1)), Vec::<String>::new());
    assert_eq!(guard_listed(Vec::<Owned<String>>::new(), &session(1)), Vec::<String>::new());
}

#[test]
fn nested_locations_are_those_of_the_company() {
    let rows = vec![owned(1, "hall"), owned(2, "yard"), owned(1, "roof")];
    assert_eq!(
        get_nested_location(rows, &session(1)),
        Ok(CommonResponse { error: None, data: Some(vec!["hall".to_string(), "roof".to_string()]) })
    );
    assert_eq!(
        get_nested_location(vec![owned(2, "yard")], &session(1)),
        Ok(CommonResponse { error: None, data: Some(Vec::<String>::new()) })
    );
}

#[test]
fn asset_requests() {
    assert_eq!(get_asset(Some(owned(1, "pump")), &session(1)), Ok(delivered("pump")));
    assert_eq!(get_asset(Some(owned(2, "pump")), &session(1)), Err(denial()));
    assert_eq!(get_asset(None::<Owned<String>>, &session(1)), Err(not_found("asset not found")));
}

#[test]
fn location_requests() {
    assert_eq!(get_location(Some(owned(1, "hall")), &session(1)), Ok(delivered("hall")));
    assert_eq!(get_location(Some(owned(2, "hall")), &session(1)), Err(denial()));
    assert_eq!(
        get_location(None::<Owned<String>>, &session(1)),
        Err(not_found("location not found"))
    );
}

#[test]
fn status_requests() {
    assert_eq!(get_status(Some(owned(1, "idle")), &session(1)), Ok(delivered("idle")));
    assert_eq!(get_status(Some(owned(2, "idle")), &session(1)), Err(denial()));
    assert_eq!(get_status(None::<Owned<String>>, &session(1)), Err(not_found("status not found")));
}

#[test]
fn maintenance_request_requests() {
    assert_eq!(get_mr(Some(owned(1, "leak")), &session(1)), Ok(delivered("leak")));
    assert_eq!(get_mr(Some(owned(2, "leak")), &session(1)), Err(denial()));
    assert_eq!(get_mr(None::<Owned<String>>, &session(1)), Err(not_found("mr not found")));
}

#[test]
fn maintenance_request_list_requests() {
    let c = session(1);
    assert_eq!(get_mr_status(Some(owned(1, "open")), &c), Ok(delivered("open")));
    assert_eq!(get_mr_status(Some(owned(2, "open")), &c), Err(denial()));
    assert_eq!(get_mr_status(None::<Owned<String>>, &c), Err(not_found("mr not found")));
    assert_eq!(get_mr_category(Some(owned(1, "pipes")), &c), Ok(delivered("pipes")));
    assert_eq!(get_mr_category(Some(owned(2, "pipes")), &c), Err(denial()));
    assert_eq!(get_mr_category(None::<Owned<String>>, &c), Err(not_found("mr not found")));
    assert_eq!(get_mr_priority(Some(owned(1, "high")), &c), Ok(delivered("high")));
    assert_eq!(get_mr_priority(Some(owned(2, "high")), &c), Err(denial()));
    assert_eq!(get_mr_priority(None::<Owned<String>>, &c), Err(not_found("mr not found")));
    assert_eq!(get_mr_failure_impact(Some(owned(1, "halt")), &c), Ok(delivered("halt")));
    assert_eq!(get_mr_failure_impact(Some(owned(2, "halt")), &c), Err(denial()));
    assert_eq!(get_mr_failure_impact(None::<Owned<String>>, &c), Err(not_found("mr not found")));
    assert_eq!(get_mr_failure_mode(Some(owned(1, "wear")), &c), Ok(delivered("wear")));
    assert_eq!(get_mr_failure_mode(Some(owned(2, "wear")), &c), Err(denial()));
    assert_eq!(get_mr_failure_mode(None::<Owned<String>>, &c), Err(not_found("mr not found")));
}

#[test]
fn user_details_within_the_company() {
    assert_eq!(user_details(Some(owned(1, "alice")), &session(1)), Ok(delivered("alice")));
    assert_eq!(user_details(Some(owned(2, "bob")), &session(1)), Err(not_found("user not found")));
    assert_eq!(user_details(None::<Owned<String>>, &session(1)), Err(not_found("user not found")));
}

#[test]
fn created_asset_belongs_to_the_session_company() {
    let payload = AssetCreateInfo {
        asset_code: "P-1".to_string(),
        asset_name: "pump".to_string(),
        asset_description: "main pump".to_string(),
        asset_location_id: 4,
        asset_status_id: 5,
        customize_fileds_1: Some("x".to_string()),
        customize_fileds_2: None,
        customize_fileds_3: None,
        customize_fileds_4: None,
        customize_fileds_5: Some("y".to_string()),
    };
    assert_eq!(
        create_asset(&session(8), payload.clone()),
        Owned { company_id: 8, record: payload }
    );
}

#[test]
fn created_location_and_status_belong_to_the_session_company() {
    let location = LocationCreateInfo {
        location_code: "H".to_string(),
        location_name: "hall".to_string(),
        location_description: "north hall".to_string(),
        parent_id: Some(2),
    };
    assert_eq!(
        create_location(&session(8), location.clone()),
        Owned { company_id: 8, record: location }
    );
    let status =
        StatusCreateInfo { status_code: "I".to_string(), status_name: "idle".to_string() };
    assert_eq!(create_status(&session(9), status.clone()), Owned { company_id: 9, record: status });
}

#[test]
fn created_maintenance_request_belongs_to_the_session() {
    let payload = CreateMrInfo {
        asset_id: 1,
        mr_name: "leak".to_string(),
        mr_status_id: 2,
        mr_category_id: 3,
        mr_priority_id: 4,
        mr_failure_impact_id: 5,
        mr_failure_mode_id: 6,
        mr_error_code: "E42".to_string(),
        mr_description: "water on the floor".to_string(),
    };
    assert_eq!(
        create_mr(&session(8), payload.clone()),
        NewMr { company_id: 8, user_id: 10, request: payload }
    );
}

#[test]
fn created_lists_belong_to_the_session_company() {
    let c = session(8);
    let status =
        CreateMrStatusInfo { status_code: "O".to_string(), status_name: "open".to_string() };
    assert_eq!(create_mr_status(&c, status.clone()), Owned { company_id: 8, record: status });
    let category =
        CreateMrCategoryInfo { category_code: "P".to_string(), category_name: "pipes".to_string() };
    assert_eq!(create_mr_category(&c, category.clone()), Owned { company_id: 8, record: category });
    let priority =
        CreateMrPriorityInfo { priority_code: "H".to_string(), priority_name: "high".to_string() };
    assert_eq!(create_mr_priority(&c, priority.clone()), Owned { company_id: 8, record: priority });
    let impact = CreateMrFailureImpactInfo {
        failure_impact_code: "S".to_string(),
        failure_impact_name: "halt".to_string(),
    };
    assert_eq!(create_mr_failure_impact(&c, impact.clone()), Owned { company_id: 8, record: impact });
    let mode = CreateMrFailureModeInfo {
        failure_mode_code: "W".to_string(),
        failure_mode_name: "wear".to_string(),
    };
    assert_eq!(create_mr_failure_mode(&c, mode.clone()), Owned { company_id: 8, record: mode });
}
