use http_muncher::{HttpErrno, HttpMethod, HttpStatus};

fn word(code: u32, method: u32, errno: u32, upgrade: bool) -> u32 {
    code + method * 0x10000 + errno * 0x1000000 + if upgrade { 0x8000_0000 } else { 0 }
}

#[test]
fn request_status() {
    let status = HttpStatus::from_flags(word(0, 3, 0, false));
    assert!(status.errno().is_ok());
    assert_eq!(Some(HttpMethod::Post), status.method());
    assert_eq!(status.method_name(), "POST");
    assert!(!status.is_upgrade());
}

#[test]
fn response_status() {
    let status = HttpStatus::from_flags(word(200, 0, 0, false));
    assert_eq!(200, status.code());
    assert!(status.errno().is_ok());
}

#[test]
fn upgrade_flag() {
    let status = HttpStatus::from_flags(word(0, 1, 0, true));
    assert_eq!(status.is_upgrade(), true);
    assert_eq!(status.method(), Some(HttpMethod::Get));
    assert_eq!(status.code(), 0);
    assert!(status.errno().is_ok());
}

#[test]
fn error_status() {
    let status = HttpStatus::from_flags(word(0, 0, 16, false));
    let errno = status.errno();
    assert!(!errno.is_ok());
    assert_eq!(errno, HttpErrno::InvalidMethod);
    let status = HttpStatus::from_flags(word(0, 0, 2, false));
    assert_eq!(status.errno(), HttpErrno::CbUrl);
}

#[test]
fn unknown_method_in_status() {
    let status = HttpStatus::from_flags(word(404, 200, 0, false));
    assert_eq!(status.method(), None);
    assert_eq!(status.method_name(), "<unknown>");
    assert_eq!(status.code(), 404);
}

#[test]
fn status_fields_read_back() {
    let status = HttpStatus::from_flags(word(0xFFFF, 26, 31, true));
    assert_eq!(status.code(), 0xFFFF);
    assert_eq!(status.method(), Some(HttpMethod::MkCalendar));
    assert_eq!(status.method_name(), "MKCALENDAR");
    assert_eq!(status.errno(), HttpErrno::Unknown);
    assert!(status.is_upgrade());
}

#[test]
fn method_name_agrees_with_method() {
    for method in 0..=255u32 {
        let status = HttpStatus::from_flags(word(200, method, 0, false));
        match status.method() {
            Some(m) => assert_eq!(status.method_name(), m.name()),
            None => assert_eq!(status.method_name(), "<unknown>"),
        }
    }
}
