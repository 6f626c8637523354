use pointercrate::error::{CoreError, PointercrateError};
use pointercrate::pagination::PaginationParameters;

fn catalogue() -> Vec<(CoreError, u16)> {
    vec![
        (CoreError::BadRequest, 40000),
        (CoreError::Unauthorized, 40100),
        (CoreError::Forbidden, 40300),
        (CoreError::NotFound, 40400),
        (CoreError::MethodNotAllowed, 40500),
        (CoreError::Conflict, 40900),
        (CoreError::LengthRequired, 41100),
        (CoreError::PreconditionFailed, 41200),
        (CoreError::PayloadTooLarge, 41300),
        (CoreError::UnsupportedMediaType { expected: "application/json" }, 41500),
        (CoreError::UnprocessableEntity, 42200),
        (CoreError::InvalidPaginationLimit, 42207),
        (CoreError::InvalidUrlScheme, 42222),
        (CoreError::UrlAuthenticated, 42223),
        (CoreError::InvalidUrlFormat { expected: "https://www.youtube.com/watch?v=..." }, 42225),
        (CoreError::AfterSmallerBefore, 42227),
        (CoreError::MutuallyExclusive, 42229),
        (CoreError::PreconditionRequired, 42800),
        (CoreError::InternalServerError, 50000),
        (CoreError::InvalidInternalStateError { cause: "a record without a player" }, 50001),
        (CoreError::DatabaseError, 50003),
        (CoreError::DatabaseConnectionError, 50005),
    ]
}

#[test]
fn every_error_has_its_code() {
    for (error, code) in catalogue() {
        assert_eq!(error.error_code(), code, "{:?}", error);
    }
}

#[test]
fn status_code_is_the_code_without_its_last_two_digits() {
    for (error, code) in catalogue() {
        assert_eq!(error.status_code(), code / 100, "{:?}", error);
    }
    assert_eq!(CoreError::InvalidPaginationLimit.status_code(), 422);
    assert_eq!(CoreError::AfterSmallerBefore.status_code(), 422);
    assert_eq!(CoreError::DatabaseError.status_code(), 500);
    assert_eq!(CoreError::Conflict.status_code(), 409);
    assert_eq!(CoreError::PreconditionRequired.status_code(), 428);
}

#[test]
fn length_required_is_answered_with_411() {
    assert_eq!(CoreError::LengthRequired.error_code(), 41100);
    assert_eq!(CoreError::LengthRequired.status_code(), 411);
    assert_eq!(CoreError::PreconditionFailed.error_code(), 41200);
    assert_eq!(CoreError::PreconditionFailed.status_code(), 412);
}

#[test]
fn every_kind_of_error_has_a_code_of_its_own() {
    let catalogue = catalogue();
    for (i, (one, code)) in catalogue.iter().enumerate() {
        for (other, other_code) in catalogue.iter().skip(i + 1) {
            assert_ne!(code, other_code, "{:?} and {:?}", one, other);
            assert_ne!(one.error_code(), other.error_code(), "{:?} and {:?}", one, other);
        }
    }
}

#[test]
fn every_error_is_answered_with_the_status_of_its_kind() {
    let statuses: Vec<u16> = vec![
        400, 401, 403, 404, 405, 409, 411, 412, 413, 415, 422, 422, 422, 422, 422, 422, 422, 428,
        500, 500, 500, 500,
    ];
    let catalogue = catalogue();
    assert_eq!(catalogue.len(), statuses.len());
    for ((error, _), status) in catalogue.iter().zip(statuses) {
        assert_eq!(error.status_code(), status, "{:?}", error);
    }
}

#[test]
fn every_status_is_a_client_or_server_error() {
    for (error, _) in catalogue() {
        let status = error.status_code();
        assert!((400..600).contains(&status), "{:?}", error);
        assert!(error.error_code() % 100 < 30, "{:?}", error);
    }
}

#[test]
fn code_does_not_depend_on_what_an_error_carries() {
    assert_eq!(
        CoreError::UnsupportedMediaType { expected: "text/plain" }.error_code(),
        CoreError::UnsupportedMediaType { expected: "image/png" }.error_code()
    );
    assert_eq!(
        CoreError::InvalidInternalStateError { cause: "one" }.error_code(),
        CoreError::InvalidInternalStateError { cause: "another" }.error_code()
    );
}

#[test]
fn core_error_converts_from_itself() {
    fn convert<E: PointercrateError>(error: CoreError) -> E {
        E::from(error)
    }
    let converted: CoreError = convert(CoreError::NotFound);
    assert_eq!(converted, CoreError::NotFound);
    assert_eq!(converted.clone().error_code(), 40400);
}

#[test]
fn limit_must_lie_between_1_and_100() {
    let with_limit = |limit: u32| PaginationParameters { before: None, after: None, limit };
    assert_eq!(with_limit(0).validate(), Err(CoreError::InvalidPaginationLimit));
    assert_eq!(with_limit(1).validate(), Ok(()));
    assert_eq!(with_limit(50).validate(), Ok(()));
    assert_eq!(with_limit(100).validate(), Ok(()));
    assert_eq!(with_limit(101).validate(), Err(CoreError::InvalidPaginationLimit));
    assert_eq!(with_limit(u32::MAX).validate(), Err(CoreError::InvalidPaginationLimit));
}

#[test]
fn after_must_not_be_greater_than_before() {
    let between = |after: i32, before: i32| PaginationParameters {
        before: Some(before),
        after: Some(after),
        limit: 10,
    };
    assert_eq!(between(5, 3).validate(), Err(CoreError::AfterSmallerBefore));
    assert_eq!(between(3, 5).validate(), Ok(()));
    assert_eq!(between(4, 4).validate(), Ok(()));
    assert_eq!(between(i32::MAX, i32::MIN).validate(), Err(CoreError::AfterSmallerBefore));
    assert_eq!(between(i32::MIN, i32::MAX).validate(), Ok(()));
}

#[test]
fn a_single_cursor_is_always_valid() {
    let only_after = PaginationParameters { before: None, after: Some(i32::MAX), limit: 1 };
    let only_before = PaginationParameters { before: Some(i32::MIN), after: None, limit: 1 };
    assert_eq!(only_after.validate(), Ok(()));
    assert_eq!(only_before.validate(), Ok(()));
}

#[test]
fn an_invalid_limit_is_reported_before_contradicting_cursors() {
    let parameters = PaginationParameters { before: Some(1), after: Some(9), limit: 0 };
    assert_eq!(parameters.validate(), Err(CoreError::InvalidPaginationLimit));
    let parameters = PaginationParameters { before: Some(1), after: Some(9), limit: 500 };
    assert_eq!(parameters.validate(), Err(CoreError::InvalidPaginationLimit));
}

#[test]
fn validation_errors_have_the_codes_of_the_catalogue() {
    let limit = PaginationParameters { before: None, after: None, limit: 0 }.validate();
    assert_eq!(limit.unwrap_err().error_code(), 42207);
    let cursors = PaginationParameters { before: Some(1), after: Some(2), limit: 5 }.validate();
    assert_eq!(cursors.unwrap_err().error_code(), 42227);
}
