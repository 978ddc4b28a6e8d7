use http_muncher::{http_method_str, HttpErrno, HttpMethod, MAX_HTTP_ERRNO, MAX_HTTP_METHOD};

#[test]
fn method_names() {
    assert_eq!(HttpMethod::Delete.name(), "DELETE");
    assert_eq!(HttpMethod::Get.name(), "GET");
    assert_eq!(HttpMethod::Post.name(), "POST");
    assert_eq!(HttpMethod::MSearch.name(), "M-SEARCH");
    assert_eq!(HttpMethod::MkCalendar.name(), "MKCALENDAR");
}

#[test]
fn method_codes_round_trip() {
    for code in 0..=MAX_HTTP_METHOD {
        let m = HttpMethod::from_code(code).expect("every code up to the maximum names a method");
        assert_eq!(m.code(), code);
        assert_eq!(m.name(), http_method_str(code));
    }
    assert_eq!(HttpMethod::Post.code(), 3);
    assert_eq!(HttpMethod::from_code(3), Some(HttpMethod::Post));
}

#[test]
fn method_codes_out_of_range() {
    for code in (MAX_HTTP_METHOD as u16 + 1)..=255 {
        assert_eq!(HttpMethod::from_code(code as u8), None);
        assert_eq!(http_method_str(code as u8), "<unknown>");
    }
}

#[test]
fn errno_names_and_descriptions() {
    assert_eq!(HttpErrno::Success.name(), "HPE_OK");
    assert_eq!(HttpErrno::Success.description(), "success");
    assert_eq!(HttpErrno::CbUrl.name(), "HPE_CB_url");
    assert_eq!(HttpErrno::CbUrl.description(), "the on_url callback failed");
    assert_eq!(HttpErrno::InvalidMethod.name(), "HPE_INVALID_METHOD");
    assert_eq!(HttpErrno::InvalidMethod.description(), "invalid HTTP method");
    assert_eq!(HttpErrno::Unknown.name(), "HPE_UNKNOWN");
    assert_eq!(HttpErrno::Unknown.description(), "an unknown error occurred");
}

#[test]
fn errno_is_ok_only_for_success() {
    assert!(HttpErrno::Success.is_ok());
    for code in 1..=MAX_HTTP_ERRNO {
        let e = HttpErrno::from_code(code).unwrap();
        assert!(!e.is_ok());
    }
}

#[test]
fn errno_codes_round_trip() {
    for code in 0..=MAX_HTTP_ERRNO {
        let e = HttpErrno::from_code(code).expect("every code up to the maximum names an error");
        assert_eq!(e.code(), code);
    }
    assert_eq!(HttpErrno::InvalidMethod.code(), 16);
    assert_eq!(HttpErrno::from_code(MAX_HTTP_ERRNO + 1), None);
    assert_eq!(HttpErrno::from_code(127), None);
}
