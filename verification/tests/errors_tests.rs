use rs_gate_server::errors::ApiError;

fn s(text: &str) -> String {
    text.to_string()
}

#[test]
fn status_codes_follow_error_kinds() {
    assert_eq!(ApiError::NotFound.status_code(), 404);
    assert_eq!(ApiError::MethodNotAllowed.status_code(), 405);
    for e in [
        ApiError::Database(s("x")),
        ApiError::Bcrypt(s("x")),
        ApiError::Internal(s("x")),
        ApiError::AnyhowError(s("x")),
        ApiError::StdError(s("x")),
        ApiError::Io(s("x")),
        ApiError::Config(s("x")),
    ] {
        assert_eq!(e.status_code(), 500);
    }
    for e in [
        ApiError::Query(s("x")),
        ApiError::Path(s("x")),
        ApiError::Json(s("x")),
        ApiError::Validation(s("x")),
    ] {
        assert_eq!(e.status_code(), 400);
    }
    assert_eq!(ApiError::JWT(s("x")).status_code(), 401);
    assert_eq!(ApiError::Unauthenticated(s("x")).status_code(), 401);
    assert_eq!(ApiError::Biz(s("x")).status_code(), 200);
}

#[test]
fn messages_render_like_the_error_texts() {
    assert_eq!(ApiError::NotFound.message(), "Server not found");
    assert_eq!(ApiError::MethodNotAllowed.message(), "Method not allowed");
    assert_eq!(ApiError::Database(s("boom")).message(), "Database error: boom");
    assert_eq!(ApiError::Query(s("q")).message(), "Query parameter error: q");
    assert_eq!(ApiError::Path(s("p")).message(), "Path parameter error: p");
    assert_eq!(ApiError::Json(s("j")).message(), "Body parameter error: j");
    assert_eq!(ApiError::Validation(s("v")).message(), "Validation failed: v");
    assert_eq!(ApiError::Bcrypt(s("b")).message(), "Password hash error: b");
    assert_eq!(ApiError::JWT(s("t")).message(), "JWT error: t");
    assert_eq!(ApiError::Unauthenticated(s("u")).message(), "Unauthenticated: u");
    assert_eq!(ApiError::Biz(s("plain words")).message(), "plain words");
    assert_eq!(ApiError::Internal(s("i")).message(), "Internal server error: i");
    assert_eq!(ApiError::AnyhowError(s("a")).message(), "Anyhow error: a");
    assert_eq!(ApiError::Config(s("c")).message(), "Configuration error: c");
    assert_eq!(ApiError::StdError(s("e")).message(), "Std error: e");
    assert_eq!(ApiError::Io(s("o")).message(), "IO error: o");
}

#[test]
fn only_business_refusals_answer_ok() {
    let all = [
        ApiError::NotFound,
        ApiError::MethodNotAllowed,
        ApiError::Database(s("")),
        ApiError::Query(s("")),
        ApiError::Path(s("")),
        ApiError::Json(s("")),
        ApiError::Validation(s("")),
        ApiError::Bcrypt(s("")),
        ApiError::JWT(s("")),
        ApiError::Unauthenticated(s("")),
        ApiError::Biz(s("")),
        ApiError::Internal(s("")),
        ApiError::AnyhowError(s("")),
        ApiError::Config(s("")),
        ApiError::StdError(s("")),
        ApiError::Io(s("")),
    ];
    for e in all.iter() {
        let code = e.status_code();
        assert!([200, 400, 401, 404, 405, 500].contains(&code));
        assert_eq!(code == 200, matches!(e, ApiError::Biz(_)));
    }
}
