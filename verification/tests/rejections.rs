use backend::envelope::{Body, ErrorMessage};
use backend::envelope::{BAD_REQUEST, INTERNAL_SERVER_ERROR, METHOD_NOT_ALLOWED, NOT_FOUND, OK};
use backend::rejection::{handle_rejection, Rejection, Signal};
use backend::service::recover;

fn quiet() -> Signal {
    Signal {
        not_found: false,
        body_error: None,
        method_not_allowed: false,
        detail: "Rejection(Custom)".to_string(),
    }
}

#[test]
fn status_constants() {
    assert_eq!(OK, 200);
    assert_eq!(BAD_REQUEST, 400);
    assert_eq!(NOT_FOUND, 404);
    assert_eq!(METHOD_NOT_ALLOWED, 405);
    assert_eq!(INTERNAL_SERVER_ERROR, 500);
}

#[test]
fn not_found_is_404() {
    let reply = handle_rejection(&Rejection::NotFound);
    assert_eq!(reply.status, 404);
    assert_eq!(
        reply.body,
        Body::Error(ErrorMessage { code: 404, message: "Page not found.".to_string() })
    );
    assert_eq!(reply.diagnostic, None);
}

#[test]
fn method_not_allowed_is_405() {
    let reply = handle_rejection(&Rejection::MethodNotAllowed);
    assert_eq!(reply.status, 405);
    assert_eq!(
        reply.body,
        Body::Error(ErrorMessage { code: 405, message: "METHOD_NOT_ALLOWED".to_string() })
    );
    assert_eq!(reply.diagnostic, None);
}

#[test]
fn body_error_naming_denom_is_a_field_error() {
    let cause = Some("missing field `denom` at line 1 column 12".to_string());
    let reply = handle_rejection(&Rejection::BadRequestBody { cause });
    assert_eq!(reply.status, 400);
    assert_eq!(
        reply.body,
        Body::Error(ErrorMessage { code: 400, message: "FIELD_ERROR: denom".to_string() })
    );
    assert_eq!(reply.diagnostic, None);
}

#[test]
fn denom_is_found_wherever_it_stands() {
    for cause in ["denom", "denominator", "xdenom", "de denom", "ddenom", "\u{e9}denom\u{e9}"] {
        let reply = handle_rejection(&Rejection::BadRequestBody { cause: Some(cause.to_string()) });
        assert_eq!(reply.status, 400);
        assert_eq!(reply.body.message(), "FIELD_ERROR: denom");
    }
}

#[test]
fn other_body_error_is_a_bad_request() {
    for cause in ["", "deno", "enom", "Denom", "DENOM", "den om", "d e n o m", "expected value"] {
        let reply = handle_rejection(&Rejection::BadRequestBody { cause: Some(cause.to_string()) });
        assert_eq!(reply.status, 400);
        assert_eq!(
            reply.body,
            Body::Error(ErrorMessage { code: 400, message: "BAD_REQUEST".to_string() })
        );
    }
}

#[test]
fn body_error_without_cause_is_a_bad_request() {
    let reply = handle_rejection(&Rejection::BadRequestBody { cause: None });
    assert_eq!(reply.status, 400);
    assert_eq!(reply.body.code(), 400);
    assert_eq!(reply.body.message(), "BAD_REQUEST");
    assert_eq!(reply.diagnostic, None);
}

#[test]
fn unclassified_is_500_and_leaves_a_line() {
    let reply = handle_rejection(&Rejection::Unclassified { detail: "Rejection(Boom)".to_string() });
    assert_eq!(reply.status, 500);
    assert_eq!(
        reply.body,
        Body::Error(ErrorMessage { code: 500, message: "UNHANDLED_REJECTION".to_string() })
    );
    assert_eq!(reply.diagnostic, Some("unhandled rejection: Rejection(Boom)".to_string()));
}

#[test]
fn unclassified_detail_naming_denom_stays_500() {
    let reply = handle_rejection(&Rejection::Unclassified { detail: "denom".to_string() });
    assert_eq!(reply.status, 500);
    assert_eq!(reply.body.message(), "UNHANDLED_REJECTION");
}

#[test]
fn signal_with_nothing_known_is_unclassified() {
    assert_eq!(
        quiet().classify(),
        Rejection::Unclassified { detail: "Rejection(Custom)".to_string() }
    );
}

#[test]
fn signal_is_classified_by_the_first_reason() {
    let all = Signal {
        not_found: true,
        body_error: Some(Some("denom".to_string())),
        method_not_allowed: true,
        detail: String::new(),
    };
    assert_eq!(all.classify(), Rejection::NotFound);
    let body_and_method = Signal {
        body_error: Some(Some("denom".to_string())),
        method_not_allowed: true,
        ..quiet()
    };
    assert_eq!(
        body_and_method.classify(),
        Rejection::BadRequestBody { cause: Some("denom".to_string()) }
    );
    let body_without_cause = Signal { body_error: Some(None), method_not_allowed: true, ..quiet() };
    assert_eq!(body_without_cause.classify(), Rejection::BadRequestBody { cause: None });
    let method = Signal { method_not_allowed: true, ..quiet() };
    assert_eq!(method.classify(), Rejection::MethodNotAllowed);
}

#[test]
fn recover_answers_a_signal() {
    let not_found = recover(Signal { not_found: true, ..quiet() });
    assert_eq!((not_found.status, not_found.body.message()), (404, "Page not found."));
    let field = recover(Signal { body_error: Some(Some("bad denom".to_string())), ..quiet() });
    assert_eq!((field.status, field.body.message()), (400, "FIELD_ERROR: denom"));
    let body = recover(Signal { body_error: Some(None), ..quiet() });
    assert_eq!((body.status, body.body.message()), (400, "BAD_REQUEST"));
    let method = recover(Signal { method_not_allowed: true, ..quiet() });
    assert_eq!((method.status, method.body.message()), (405, "METHOD_NOT_ALLOWED"));
    let unknown = recover(quiet());
    assert_eq!((unknown.status, unknown.body.message()), (500, "UNHANDLED_REJECTION"));
    assert_eq!(unknown.diagnostic, Some("unhandled rejection: Rejection(Custom)".to_string()));
}

#[test]
fn every_rejection_gets_an_error_envelope_with_its_status() {
    let rejections = [
        Rejection::NotFound,
        Rejection::BadRequestBody { cause: None },
        Rejection::BadRequestBody { cause: Some("denom".to_string()) },
        Rejection::MethodNotAllowed,
        Rejection::Unclassified { detail: String::new() },
    ];
    for rejection in rejections {
        let reply = handle_rejection(&rejection);
        assert!(matches!(reply.body, Body::Error(_)));
        assert_eq!(reply.status, reply.body.code());
        assert!([400, 404, 405, 500].contains(&reply.status));
    }
}
