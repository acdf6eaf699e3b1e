//! The security headers that every answer of the service carries.

use vstd::prelude::*;

verus! {

/// The headers and their values, in the order in which they are set: no
/// content sniffing, no framing, the legacy XSS filter in blocking mode, HTTPS
/// for a year on all subdomains, the referrer only across origins of the same
/// security, content from the service itself only, and no access to the
/// location, the microphone and the camera.
pub open spec fn security_header_table() -> Seq<(Seq<char>, Seq<char>)> {
    seq![
        ("x-content-type-options"@, "nosniff"@),
        ("x-frame-options"@, "DENY"@),
        ("x-xss-protection"@, "1; mode=block"@),
        ("strict-transport-security"@, "max-age=31536000; includeSubDomains"@),
        ("referrer-policy"@, "strict-origin-when-cross-origin"@),
        (
            "content-security-policy"@,
            "default-src 'self'; script-src 'self' 'unsafe-inline'; style-src 'self' 'unsafe-inline'; img-src 'self' data:; font-src 'self' data:; connect-src 'self'; frame-ancestors 'none';"@,
        ),
        ("permissions-policy"@, "geolocation=(), microphone=(), camera=()"@),
    ]
}

/// The security headers to set on an answer, each with its value.
pub fn security_headers() -> (headers: Vec<(&'static str, &'static str)>)
    ensures
        headers.deep_view() == security_header_table(),
{
    let mut headers: Vec<(&'static str, &'static str)> = Vec::new();
    headers.push(("x-content-type-options", "nosniff"));
    headers.push(("x-frame-options", "DENY"));
    headers.push(("x-xss-protection", "1; mode=block"));
    headers.push(("strict-transport-security", "max-age=31536000; includeSubDomains"));
    headers.push(("referrer-policy", "strict-origin-when-cross-origin"));
    headers.push(
        (
            "content-security-policy",
            "default-src 'self'; script-src 'self' 'unsafe-inline'; style-src 'self' 'unsafe-inline'; img-src 'self' data:; font-src 'self' data:; connect-src 'self'; frame-ancestors 'none';",
        ),
    );
    headers.push(("permissions-policy", "geolocation=(), microphone=(), camera=()"));
    assert(headers.deep_view() =~= security_header_table());
    headers
}

} // verus!
