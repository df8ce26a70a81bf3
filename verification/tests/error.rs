use matter::error::{Error, ErrorCode};

#[test]
fn error_tells_its_code() {
    assert_eq!(Error::new(ErrorCode::NoSession).code(), ErrorCode::NoSession);
    assert_eq!(Error::from(ErrorCode::NoExchange), Error { code: ErrorCode::NoExchange });
}

#[test]
fn short_buffer_is_no_space() {
    assert_eq!(Error::from(domain::base::ShortBuf).code(), ErrorCode::NoSpace);
}

#[test]
fn malformed_message_is_an_mdns_error() {
    let e = domain::base::octets::ParseError::ShortInput;
    assert_eq!(Error::from(e).code(), ErrorCode::MdnsError);
}

#[test]
fn malformed_name_is_an_mdns_error() {
    let e = domain::base::name::FromStrError::EmptyLabel;
    assert_eq!(Error::from(e).code(), ErrorCode::MdnsError);
}
