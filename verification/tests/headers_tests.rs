use memo_core::headers::security_headers;

#[test]
fn security_headers_are_the_seven_expected() {
    let headers = security_headers();
    assert_eq!(
        headers,
        vec![
            ("x-content-type-options", "nosniff"),
            ("x-frame-options", "DENY"),
            ("x-xss-protection", "1; mode=block"),
            ("strict-transport-security", "max-age=31536000; includeSubDomains"),
            ("referrer-policy", "strict-origin-when-cross-origin"),
            (
                "content-security-policy",
                "default-src 'self'; script-src 'self' 'unsafe-inline'; style-src 'self' 'unsafe-inline'; img-src 'self' data:; font-src 'self' data:; connect-src 'self'; frame-ancestors 'none';",
            ),
            ("permissions-policy", "geolocation=(), microphone=(), camera=()"),
        ]
    );
}

#[test]
fn security_header_names_are_lower_case_and_distinct() {
    let headers = security_headers();
    for (i, (name, value)) in headers.iter().enumerate() {
        assert_eq!(*name, name.to_lowercase());
        assert!(!value.is_empty());
        for (other, _) in &headers[i + 1..] {
            assert_ne!(name, other);
        }
    }
}
