use linkage_firewall::leaks::HttpError;

#[test]
fn it_works() {
    assert_eq!(2 + 2, 4);
}

#[test]
fn test_http_error_messages() {
    assert_eq!(
        "Error contacting ipleak.net",
        HttpError::ResponseError.message()
    );
    assert_eq!(
        "Error getting the DNS server",
        HttpError::ParseError.message()
    );
}
