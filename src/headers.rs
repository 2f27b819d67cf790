//! The default request headers of each browser family.
use vstd::prelude::*;

verus! {

/// The headers as pairs of character sequences.
pub open spec fn headers_view(h: Seq<(&'static str, &'static str)>) -> Seq<(Seq<char>, Seq<char>)> {
    h.map_values(|p: (&'static str, &'static str)| (p.0@, p.1@))
}

/// The `accept-encoding` value that advertises exactly the enabled
/// decoders; deflate is always accepted.
pub open spec fn accept_encoding_spec(gzip: bool, brotli: bool, zstd: bool) -> Seq<char> {
    match (gzip, brotli, zstd) {
        (true, true, true) => "gzip, deflate, br, zstd"@,
        (true, true, false) => "gzip, deflate, br"@,
        (true, false, true) => "gzip, deflate, zstd"@,
        (true, false, false) => "gzip, deflate"@,
        (false, true, true) => "deflate, br, zstd"@,
        (false, true, false) => "deflate, br"@,
        (false, false, true) => "deflate, zstd"@,
        (false, false, false) => "deflate"@,
    }
}

/// The `accept-encoding` value that advertises exactly the enabled decoders.
pub fn accept_encoding(gzip: bool, brotli: bool, zstd: bool) -> (r: &'static str)
    ensures
        r@ == accept_encoding_spec(gzip, brotli, zstd),
{
    match (gzip, brotli, zstd) {
        (true, true, true) => "gzip, deflate, br, zstd",
        (true, true, false) => "gzip, deflate, br",
        (true, false, true) => "gzip, deflate, zstd",
        (true, false, false) => "gzip, deflate",
        (false, true, true) => "deflate, br, zstd",
        (false, true, false) => "deflate, br",
        (false, false, true) => "deflate, zstd",
        (false, false, false) => "deflate",
    }
}

/// The default request headers of a Chromium-based browser, client hints included.
pub open spec fn chromium_headers_spec(ua: Seq<char>, ch: Seq<char>, platform: Seq<char>, enc: Seq<char>) -> Seq<(Seq<char>, Seq<char>)> {
    seq![
        ("user-agent"@, ua),
        ("sec-ch-ua"@, ch),
        ("sec-ch-ua-mobile"@, "?0"@),
        ("sec-ch-ua-platform"@, platform),
        ("sec-fetch-dest"@, "document"@),
        ("sec-fetch-mode"@, "navigate"@),
        ("sec-fetch-site"@, "none"@),
        ("sec-fetch-user"@, "?1"@),
        ("accept"@, "*/*"@),
        ("accept-encoding"@, enc),
        ("priority"@, "u=0, i"@),
    ]
}

/// The default request headers of a Chromium-based browser, client hints included.
pub fn chromium_headers(ua: &'static str, ch: &'static str, platform: &'static str, enc: &'static str) -> (r: Vec<(&'static str, &'static str)>)
    ensures
        headers_view(r@) == chromium_headers_spec(ua@, ch@, platform@, enc@),
{
    let r = vec![
        ("user-agent", ua),
        ("sec-ch-ua", ch),
        ("sec-ch-ua-mobile", "?0"),
        ("sec-ch-ua-platform", platform),
        ("sec-fetch-dest", "document"),
        ("sec-fetch-mode", "navigate"),
        ("sec-fetch-site", "none"),
        ("sec-fetch-user", "?1"),
        ("accept", "*/*"),
        ("accept-encoding", enc),
        ("priority", "u=0, i"),
    ];
    assert(headers_view(r@) =~= chromium_headers_spec(ua@, ch@, platform@, enc@));
    r
}

/// The default request headers of Firefox.
pub open spec fn firefox_headers_spec(ua: Seq<char>, enc: Seq<char>) -> Seq<(Seq<char>, Seq<char>)> {
    seq![
        ("user-agent"@, ua),
        ("accept"@, "text/html,application/xhtml+xml,application/xml;q=0.9,image/avif,image/webp,*/*;q=0.8"@),
        ("accept-language"@, "en-US,en;q=0.5"@),
        ("accept-encoding"@, enc),
        ("upgrade-insecure-requests"@, "1"@),
        ("sec-fetch-dest"@, "document"@),
        ("sec-fetch-mode"@, "navigate"@),
        ("sec-fetch-site"@, "none"@),
        ("sec-fetch-user"@, "?1"@),
        ("te"@, "trailers"@),
    ]
}

/// The default request headers of Firefox.
pub fn firefox_headers(ua: &'static str, enc: &'static str) -> (r: Vec<(&'static str, &'static str)>)
    ensures
        headers_view(r@) == firefox_headers_spec(ua@, enc@),
{
    let r = vec![
        ("user-agent", ua),
        ("accept", "text/html,application/xhtml+xml,application/xml;q=0.9,image/avif,image/webp,*/*;q=0.8"),
        ("accept-language", "en-US,en;q=0.5"),
        ("accept-encoding", enc),
        ("upgrade-insecure-requests", "1"),
        ("sec-fetch-dest", "document"),
        ("sec-fetch-mode", "navigate"),
        ("sec-fetch-site", "none"),
        ("sec-fetch-user", "?1"),
        ("te", "trailers"),
    ];
    assert(headers_view(r@) =~= firefox_headers_spec(ua@, enc@));
    r
}

/// The default request headers of Safari, which sends no client hints.
pub open spec fn safari_headers_spec(ua: Seq<char>, enc: Seq<char>) -> Seq<(Seq<char>, Seq<char>)> {
    seq![
        ("user-agent"@, ua),
        ("accept"@, "text/html,application/xhtml+xml,application/xml;q=0.9,*/*;q=0.8"@),
        ("accept-language"@, "en-US,en;q=0.9"@),
        ("accept-encoding"@, enc),
        ("sec-fetch-dest"@, "document"@),
        ("sec-fetch-mode"@, "navigate"@),
        ("sec-fetch-site"@, "none"@),
        ("priority"@, "u=0, i"@),
    ]
}

/// The default request headers of Safari, which sends no client hints.
pub fn safari_headers(ua: &'static str, enc: &'static str) -> (r: Vec<(&'static str, &'static str)>)
    ensures
        headers_view(r@) == safari_headers_spec(ua@, enc@),
{
    let r = vec![
        ("user-agent", ua),
        ("accept", "text/html,application/xhtml+xml,application/xml;q=0.9,*/*;q=0.8"),
        ("accept-language", "en-US,en;q=0.9"),
        ("accept-encoding", enc),
        ("sec-fetch-dest", "document"),
        ("sec-fetch-mode", "navigate"),
        ("sec-fetch-site", "none"),
        ("priority", "u=0, i"),
    ];
    assert(headers_view(r@) =~= safari_headers_spec(ua@, enc@));
    r
}

} // verus!
