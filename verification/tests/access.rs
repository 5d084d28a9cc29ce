use camera_access::api_error::{ApiError, Status};
use camera_access::camera::Camera;
use camera_access::ident::Uuid;
use camera_access::user_tokens::UserToken;
use camera_access::users_cameras::{
    authorize, camera_id_or_error, camera_list_or_error, check_if_user_has_access_to_camera,
    has_camera, insert, list_cameras, parse_camera_id, InsertableUsersCamera, Store, StoreError,
};

const C1: &str = "67e55044-10b1-426f-9247-bb680e5fe0c8";
const C1_VALUE: u128 = 0x67e5504410b1426f9247bb680e5fe0c8;
const C2: &str = "936da01f-9abd-4d9d-80c7-02af85c822a8";
const C2_VALUE: u128 = 0x936da01f9abd4d9d80c702af85c822a8;
const U1_VALUE: u128 = 0x0123456789abcdef0123456789abcdef;

fn id(value: u128) -> Uuid {
    Uuid { value }
}

fn camera(value: u128, name: &str) -> Camera {
    Camera { camera_id: id(value), name: name.to_string() }
}

fn invalid() -> ApiError {
    ApiError { error: "Failed to parse camera ID string", status: Status::UnprocessableEntity }
}

fn unauthorized() -> ApiError {
    ApiError { error: "User does not have access to camera", status: Status::Unauthorized }
}

fn store_with_c1_for_u1() -> Store {
    let mut store = Store::new(vec![camera(C1_VALUE, "porch"), camera(C2_VALUE, "garage")]);
    insert(
        InsertableUsersCamera { camera_id: id(C1_VALUE), user_id: id(U1_VALUE) },
        &mut store,
    )
    .unwrap();
    store
}

#[test]
fn parse_str_reads_hyphenated_text() {
    assert_eq!(Uuid::parse_str(C1), Some(id(C1_VALUE)));
    assert_eq!(Uuid::parse_str(C2), Some(id(C2_VALUE)));
}

#[test]
fn parse_str_reads_simple_and_urn_text() {
    assert_eq!(Uuid::parse_str("67e5504410b1426f9247bb680e5fe0c8"), Some(id(C1_VALUE)));
    assert_eq!(
        Uuid::parse_str("urn:uuid:67e55044-10b1-426f-9247-bb680e5fe0c8"),
        Some(id(C1_VALUE))
    );
    assert_eq!(Uuid::parse_str("67E55044-10B1-426F-9247-BB680E5FE0C8"), Some(id(C1_VALUE)));
}

#[test]
fn parse_str_reads_the_extremes() {
    assert_eq!(Uuid::parse_str("00000000-0000-0000-0000-000000000000"), Some(id(0)));
    assert_eq!(Uuid::parse_str("ffffffff-ffff-ffff-ffff-ffffffffffff"), Some(id(u128::MAX)));
}

#[test]
fn parse_str_rejects_other_text() {
    assert_eq!(Uuid::parse_str(""), None);
    assert_eq!(Uuid::parse_str("not-a-uuid"), None);
    assert_eq!(Uuid::parse_str("xyz"), None);
    assert_eq!(Uuid::parse_str("67e55044-10b1-426f-9247-bb680e5fe0c"), None);
    assert_eq!(Uuid::parse_str("67e55044-10b1-426f-9247-bb680e5fe0cg"), None);
    assert_eq!(Uuid::parse_str("67e55044-10b1-426f-9247-bb680e5fe0c8 "), None);
}

#[test]
fn parse_str_agrees_with_the_uuid_crate() {
    let texts = [C1, C2, "not-a-uuid", "67e5504410b1426f9247bb680e5fe0c8", "{}", "C1"];
    for text in texts {
        let expected = uuid::Uuid::parse_str(text).ok().map(|parsed| id(parsed.as_u128()));
        assert_eq!(Uuid::parse_str(text), expected);
    }
}

#[test]
fn status_codes() {
    assert_eq!(Status::Unauthorized.code(), 401);
    assert_eq!(Status::UnprocessableEntity.code(), 422);
    assert_eq!(Status::InternalServerError.code(), 500);
}

#[test]
fn camera_id_or_error_passes_an_identifier_on() {
    assert_eq!(camera_id_or_error(Some(id(5))), Ok(id(5)));
}

#[test]
fn camera_id_or_error_rejects_a_missing_identifier() {
    assert_eq!(camera_id_or_error(None), Err(invalid()));
}

#[test]
fn parse_camera_id_reads_an_identifier() {
    assert_eq!(parse_camera_id(&C1.to_string()), Ok(id(C1_VALUE)));
}

#[test]
fn parse_camera_id_rejects_malformed_text() {
    assert_eq!(parse_camera_id(&"not-a-uuid".to_string()), Err(invalid()));
    assert_eq!(parse_camera_id(&String::new()), Err(invalid()));
}

#[test]
fn has_camera_scans_the_list() {
    let cameras = vec![camera(1, "porch"), camera(2, "garage")];
    assert!(has_camera(&cameras, id(1)));
    assert!(has_camera(&cameras, id(2)));
    assert!(!has_camera(&cameras, id(3)));
    assert!(!has_camera(&vec![], id(1)));
}

#[test]
fn authorize_admits_a_listed_camera() {
    let cameras = vec![camera(1, "porch"), camera(2, "garage")];
    assert_eq!(authorize(id(2), Ok(cameras)), Ok(()));
}

#[test]
fn authorize_refuses_an_unlisted_camera() {
    let cameras = vec![camera(1, "porch")];
    assert_eq!(authorize(id(2), Ok(cameras)), Err(unauthorized()));
    assert_eq!(authorize(id(2), Ok(vec![])), Err(unauthorized()));
}

#[test]
fn authorize_reports_a_failed_store() {
    let expected = ApiError {
        error: "Failed to get list of owned cameras",
        status: Status::InternalServerError,
    };
    assert_eq!(authorize(id(1), Err(StoreError::DatabaseError)), Err(expected));
    assert_eq!(authorize(id(1), Err(StoreError::NotFound)), Err(expected));
}

#[test]
fn camera_list_or_error_passes_the_cameras_on() {
    let cameras = vec![camera(1, "porch"), camera(2, "garage")];
    assert_eq!(camera_list_or_error(Ok(cameras.clone())), Ok(cameras));
    assert_eq!(camera_list_or_error(Ok(vec![])), Ok(vec![]));
}

#[test]
fn camera_list_or_error_reports_a_failed_store() {
    let expected = ApiError {
        error: "Database failed to get list of cameras",
        status: Status::InternalServerError,
    };
    assert_eq!(camera_list_or_error(Err(StoreError::DatabaseError)), Err(expected));
}

#[test]
fn owner_is_admitted() {
    let store = store_with_c1_for_u1();
    let token = UserToken { user_id: id(U1_VALUE) };
    assert_eq!(check_if_user_has_access_to_camera(&store, &token, &C1.to_string()), Ok(()));
}

#[test]
fn camera_of_nobody_is_refused() {
    let store = store_with_c1_for_u1();
    let token = UserToken { user_id: id(U1_VALUE) };
    assert_eq!(
        check_if_user_has_access_to_camera(&store, &token, &C2.to_string()),
        Err(unauthorized())
    );
}

#[test]
fn camera_of_another_user_is_refused() {
    let store = store_with_c1_for_u1();
    let token = UserToken { user_id: id(77) };
    assert_eq!(
        check_if_user_has_access_to_camera(&store, &token, &C1.to_string()),
        Err(unauthorized())
    );
}

#[test]
fn malformed_camera_id_is_invalid() {
    let store = store_with_c1_for_u1();
    let token = UserToken { user_id: id(U1_VALUE) };
    assert_eq!(
        check_if_user_has_access_to_camera(&store, &token, &"not-a-uuid".to_string()),
        Err(invalid())
    );
    assert_eq!(
        check_if_user_has_access_to_camera(&store, &token, &"xyz".to_string()),
        Err(invalid())
    );
}

#[test]
fn record_without_camera_gives_no_access() {
    let mut store = Store::new(vec![]);
    insert(
        InsertableUsersCamera { camera_id: id(C1_VALUE), user_id: id(U1_VALUE) },
        &mut store,
    )
    .unwrap();
    let token = UserToken { user_id: id(U1_VALUE) };
    assert_eq!(
        check_if_user_has_access_to_camera(&store, &token, &C1.to_string()),
        Err(unauthorized())
    );
}

#[test]
fn association_scenario() {
    let store = store_with_c1_for_u1();
    let token = UserToken { user_id: id(U1_VALUE) };
    assert_eq!(list_cameras(&store, token), Ok(vec![camera(C1_VALUE, "porch")]));
    assert_eq!(check_if_user_has_access_to_camera(&store, &token, &C1.to_string()), Ok(()));
    assert_eq!(
        check_if_user_has_access_to_camera(&store, &token, &C2.to_string()),
        Err(unauthorized())
    );
    assert_eq!(
        check_if_user_has_access_to_camera(&store, &token, &"xyz".to_string()),
        Err(invalid())
    );
}

#[test]
fn list_cameras_of_a_user_without_records_is_empty() {
    let store = store_with_c1_for_u1();
    assert_eq!(list_cameras(&store, UserToken { user_id: id(5) }), Ok(vec![]));
}
