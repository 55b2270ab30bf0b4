use nimbus_alt::fetch::{classify_status, interpret_response, DecodedBody, FetchError, StatusClass};

#[test]
fn status_classes_follow_the_ranges() {
    assert_eq!(classify_status(200), StatusClass::Success);
    assert_eq!(classify_status(299), StatusClass::Success);
    assert_eq!(classify_status(301), StatusClass::Other);
    assert_eq!(classify_status(400), StatusClass::ClientError);
    assert_eq!(classify_status(404), StatusClass::ClientError);
    assert_eq!(classify_status(499), StatusClass::ClientError);
    assert_eq!(classify_status(500), StatusClass::Other);
    assert_eq!(classify_status(199), StatusClass::Other);
}

#[test]
fn decoded_success_payload_is_returned() {
    let r: Result<u32, FetchError<String>> =
        interpret_response(200, String::from("{\"n\":7}"), DecodedBody::AsSuccess(Ok(7)));
    assert_eq!(r.unwrap(), 7);
}

#[test]
fn failed_success_decode_keeps_body_and_cause() {
    let r: Result<u32, FetchError<String>> = interpret_response(
        200,
        String::from("not json"),
        DecodedBody::AsSuccess(Err(String::from("expected a map"))),
    );
    match r.unwrap_err() {
        FetchError::Decode { body, cause } => {
            assert_eq!(body, "not json");
            assert_eq!(cause, "expected a map");
        }
        other => panic!("unexpected outcome: {:?}", other),
    }
}

#[test]
fn decoded_provider_error_is_surfaced() {
    let r: Result<u32, FetchError<String>> = interpret_response(
        403,
        String::from("{\"error\":\"forbidden\"}"),
        DecodedBody::AsError(Ok(String::from("forbidden"))),
    );
    match r.unwrap_err() {
        FetchError::Provider(e) => assert_eq!(e, "forbidden"),
        other => panic!("unexpected outcome: {:?}", other),
    }
}

#[test]
fn failed_error_decode_is_not_masked() {
    let r: Result<u32, FetchError<String>> = interpret_response(
        404,
        String::from("<html>"),
        DecodedBody::AsError(Err(String::from("invalid json"))),
    );
    match r.unwrap_err() {
        FetchError::Decode { body, cause } => {
            assert_eq!(body, "<html>");
            assert_eq!(cause, "invalid json");
        }
        other => panic!("unexpected outcome: {:?}", other),
    }
}

#[test]
fn unhandled_status_is_surfaced_with_its_code() {
    let r: Result<u32, FetchError<String>> =
        interpret_response(502, String::from(""), DecodedBody::Undecoded);
    match r.unwrap_err() {
        FetchError::UnexpectedStatus(code) => assert_eq!(code, 502),
        other => panic!("unexpected outcome: {:?}", other),
    }
}
