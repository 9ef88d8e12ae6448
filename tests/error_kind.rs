use myemma_core::{decimal_string, ApiErrorKind};

const ALL: [ApiErrorKind; 7] = [
    ApiErrorKind::ServerError,
    ApiErrorKind::BadRequest,
    ApiErrorKind::Unauthorized,
    ApiErrorKind::Forbidden,
    ApiErrorKind::NotFound,
    ApiErrorKind::UnprocessableEntity,
    ApiErrorKind::PrivateError,
];

#[test]
fn status_round_trip() {
    for k in ALL {
        let code = u16::from(k);
        let back = ApiErrorKind::from(code);
        if k == ApiErrorKind::ServerError {
            assert_eq!(back, ApiErrorKind::PrivateError);
        } else {
            assert_eq!(back, k);
        }
    }
}

#[test]
fn statuses_of_kinds() {
    assert_eq!(u16::from(ApiErrorKind::ServerError), 500);
    assert_eq!(u16::from(ApiErrorKind::BadRequest), 400);
    assert_eq!(u16::from(ApiErrorKind::Unauthorized), 401);
    assert_eq!(u16::from(ApiErrorKind::Forbidden), 403);
    assert_eq!(u16::from(ApiErrorKind::NotFound), 404);
    assert_eq!(u16::from(ApiErrorKind::UnprocessableEntity), 422);
    assert_eq!(u16::from(ApiErrorKind::PrivateError), 500);
}

#[test]
fn unknown_status_fails_closed() {
    assert_eq!(ApiErrorKind::from(418), ApiErrorKind::PrivateError);
    assert_eq!(ApiErrorKind::from(0), ApiErrorKind::PrivateError);
    assert_eq!(ApiErrorKind::from(500), ApiErrorKind::PrivateError);
    assert_eq!(ApiErrorKind::default(), ApiErrorKind::PrivateError);
}

#[test]
fn server_error_kinds() {
    for k in ALL {
        let expected = k == ApiErrorKind::ServerError || k == ApiErrorKind::PrivateError;
        assert_eq!(k.is_server_error(), expected);
    }
}

#[test]
fn labels_hide_private_distinction() {
    assert_eq!(ApiErrorKind::PrivateError.label(), "Server Error");
    assert_eq!(ApiErrorKind::ServerError.label(), "Server Error");
    assert_eq!(ApiErrorKind::UnprocessableEntity.label(), "Unprocessable Entity");
    assert_eq!(ApiErrorKind::NotFound.name(), "NotFound");
}

#[test]
fn decimal_notation() {
    assert_eq!(decimal_string(0), "0");
    assert_eq!(decimal_string(7), "7");
    assert_eq!(decimal_string(65535), "65535");
    assert_eq!(decimal_string(u64::MAX), u64::MAX.to_string());
}
