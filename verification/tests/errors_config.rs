use user_service::{build_config, connection_uri, AppError, RequestError, ValidationErrors};

#[test]
fn app_error_status_codes() {
    assert_eq!(AppError::InternalServerError.status_code(), 500);
    assert_eq!(AppError::BadRequest("whatever".to_string()).status_code(), 400);
    assert_eq!(AppError::NotFound.status_code(), 404);
}

#[test]
fn app_error_messages() {
    assert_eq!(AppError::InternalServerError.message(), "Internal Server Error");
    assert_eq!(
        AppError::BadRequest("Invalid ID format".to_string()).message(),
        "Bad Request: Invalid ID format"
    );
    assert_eq!(AppError::NotFound.message(), "Not Found");
}

#[test]
fn request_error_status_codes() {
    let v = ValidationErrors { name: None, email: None, age: None };
    assert_eq!(RequestError::Validation(v).status_code(), 400);
    assert_eq!(RequestError::InvalidId.status_code(), 400);
    assert_eq!(RequestError::NotFound.status_code(), 404);
    assert_eq!(RequestError::Storage.status_code(), 500);
}

#[test]
fn request_errors_map_to_app_errors() {
    let v = ValidationErrors {
        name: Some("Name must be at least 3 characters".to_string()),
        email: None,
        age: None,
    };
    match RequestError::Validation(v).to_app_error() {
        AppError::BadRequest(m) => {
            assert_eq!(m, "Name must be at least 3 characters\n");
        },
        _ => panic!("expected a bad request"),
    }
    match RequestError::InvalidId.to_app_error() {
        AppError::BadRequest(m) => assert_eq!(m, "Invalid ID format"),
        _ => panic!("expected a bad request"),
    }
    assert!(matches!(RequestError::NotFound.to_app_error(), AppError::NotFound));
    assert!(matches!(
        RequestError::Storage.to_app_error(),
        AppError::InternalServerError
    ));
}

#[test]
fn complete_config_builds() {
    let r = build_config(
        Some("app".to_string()),
        Some("pw".to_string()),
        Some("cluster.example.net".to_string()),
        Some("shop".to_string()),
    )
    .unwrap();
    assert_eq!(r.user, "app");
    assert_eq!(r.password, "pw");
    assert_eq!(r.host, "cluster.example.net");
    assert_eq!(r.db_name, "shop");
    assert_eq!(
        connection_uri(&r),
        "mongodb+srv://app:pw@cluster.example.net/?retryWrites=true&w=majority&appName=test"
    );
}

#[test]
fn first_missing_value_decides_the_error() {
    let e = build_config(None, None, None, None).unwrap_err();
    assert_eq!(e, "MONGO_USER not set in .env");
    let e = build_config(Some("app".to_string()), None, None, None).unwrap_err();
    assert_eq!(e, "MONGO_PASSWORD not set in .env");
    let e = build_config(Some("app".to_string()), Some("pw".to_string()), None, None).unwrap_err();
    assert_eq!(e, "MONGO_HOST not set in .env");
    let e = build_config(
        Some("app".to_string()),
        Some("pw".to_string()),
        Some("h".to_string()),
        None,
    )
    .unwrap_err();
    assert_eq!(e, "MONGO_DB not set in .env");
}
