use user_service::transport::{
    reply_from_dispatch, reply_status, request_text_from_body, request_text_from_query,
    text_from_decoded,
};

#[test]
fn query_is_percent_decoded() {
    assert_eq!(request_text_from_query(Some("hello%20")), "hello ");
    assert_eq!(request_text_from_query(Some("%20hello")), " hello");
    assert_eq!(request_text_from_query(Some("GetUser:12345::%7B%22user_id%22%3A123%7D")), "GetUser:12345::{\"user_id\":123}");
}

#[test]
fn query_without_escapes_is_kept() {
    assert_eq!(request_text_from_query(Some("hello")), "hello");
    assert_eq!(request_text_from_query(Some("a+b")), "a+b");
}

#[test]
fn missing_query_is_empty_text() {
    assert_eq!(request_text_from_query(None), "");
}

#[test]
fn malformed_escapes_are_kept_literally() {
    assert_eq!(request_text_from_query(Some("%zz")), "%zz");
    assert_eq!(request_text_from_query(Some("50%")), "50%");
    assert_eq!(request_text_from_query(Some("%4g")), "%4g");
}

#[test]
fn query_that_decodes_to_invalid_utf8_is_kept_raw() {
    assert_eq!(request_text_from_query(Some("%FF%FE")), "%FF%FE");
    assert_eq!(request_text_from_query(Some("caf%C3%A9")), "café");
}

#[test]
fn decoded_text_falls_back_to_raw() {
    assert_eq!(text_from_decoded("raw%FF", None), "raw%FF");
    assert_eq!(text_from_decoded("a%20b", Some("a b".to_string())), "a b");
}

#[test]
fn utf8_body_is_the_request_text() {
    match request_text_from_body("GetUser:12345::{}".as_bytes()) {
        Ok(text) => assert_eq!(text, "GetUser:12345::{}"),
        Err(_) => panic!("valid UTF-8 was refused"),
    }
    match request_text_from_body(&[0x63, 0x61, 0x66, 0xC3, 0xA9]) {
        Ok(text) => assert_eq!(text, "café"),
        Err(_) => panic!("valid UTF-8 was refused"),
    }
}

#[test]
fn empty_body_is_empty_text() {
    match request_text_from_body(&[]) {
        Ok(text) => assert_eq!(text, ""),
        Err(_) => panic!("empty body was refused"),
    }
}

#[test]
fn non_utf8_body_gets_bad_request() {
    match request_text_from_body(&[0x66, 0x6f, 0xff, 0x6f]) {
        Ok(_) => panic!("invalid UTF-8 was accepted"),
        Err(reply) => {
            assert_eq!(reply.status, 400);
            assert_eq!(reply.content_type, "text/plain; charset=utf-8");
            assert_eq!(reply.body, "bad request: body is not valid UTF-8");
        }
    }
    assert!(request_text_from_body(&[0xC3]).is_err());
}

#[test]
fn accepted_status_codes_are_kept() {
    assert_eq!(reply_status(200), 200);
    assert_eq!(reply_status(100), 100);
    assert_eq!(reply_status(999), 999);
    assert_eq!(reply_status(400), 400);
}

#[test]
fn invalid_status_codes_become_internal_server_error() {
    assert_eq!(reply_status(99), 500);
    assert_eq!(reply_status(0), 500);
    assert_eq!(reply_status(1000), 500);
    assert_eq!(reply_status(u16::MAX), 500);
}

#[test]
fn dispatch_reply_keeps_type_and_data() {
    let reply = reply_from_dispatch(42, "application/json".to_string(), "{}".to_string());
    assert_eq!(reply.status, 500);
    assert_eq!(reply.content_type, "application/json");
    assert_eq!(reply.body, "{}");
    let reply = reply_from_dispatch(404, "text/plain".to_string(), "no".to_string());
    assert_eq!(reply.status, 404);
}

#[test]
fn escapes_decode_in_either_case_and_plus_stays() {
    assert_eq!(request_text_from_query(Some("%4a%4A")), "JJ");
    assert_eq!(request_text_from_query(Some("%%41")), "%A");
    assert_eq!(request_text_from_query(Some("%4%41")), "%4A");
    assert_eq!(request_text_from_query(Some("a+b%2Bc")), "a+b+c");
    assert_eq!(request_text_from_query(Some("%2")), "%2");
}
