use bytes::BytesMut;
use primp::cert_compressor::{BrotliCompressor, ZlibCompressor};
use primp::emulator::{BrowserEmulator, BrowserEmulatorOS, BrowserType, BrowserVersion};
use primp::headers::accept_encoding;
use primp::profile::{build_browser_settings, BrowserSettings, Http2Data, Impersonate, ImpersonateOS};
use primp::registry::ProfileCache;
use primp::selection::{
    configure_impersonate, get_random_impersonate_config, parse_impersonate, parse_impersonate_os,
    random_impersonate, random_impersonate_os, resolve_impersonate_config, FallbackLog, SelectionError,
};
use primp::tls::{
    chrome_cipher_suites, firefox_cipher_suites, safari_signature_algorithms, EmulationProfile,
    TLS13_AES_128_GCM_SHA256,
};

/// The SETTINGS part of an HTTP/2 fingerprint, read back from the encoded frame.
fn settings_text(settings: &BrowserSettings) -> String {
    let s = settings.http2.to_settings();
    let mut buf = BytesMut::new();
    s.encode(&mut buf);
    let bytes = buf.to_vec();
    assert_eq!(bytes[3], 4);
    let len = ((bytes[0] as usize) << 16) | ((bytes[1] as usize) << 8) | bytes[2] as usize;
    assert_eq!(len, bytes.len() - 9);
    let mut parts = Vec::new();
    for field in bytes[9..].chunks(6) {
        let id = u16::from_be_bytes([field[0], field[1]]);
        let val = u32::from_be_bytes([field[2], field[3], field[4], field[5]]);
        parts.push(format!("{}:{}", id, val));
    }
    parts.join(";")
}

fn pseudo_text(settings: &BrowserSettings) -> String {
    let order = settings.http2.headers_pseudo_order.as_ref().unwrap().to_vec();
    order.iter().map(|p| p.letter().to_string()).collect::<Vec<_>>().join(",")
}

fn header<'a>(settings: &'a BrowserSettings, name: &str) -> Option<&'a str> {
    settings.headers.iter().find(|(n, _)| *n == name).map(|(_, v)| *v)
}

#[test]
fn test_brotli_compressor_creation() {
    let compressor = BrotliCompressor::new();
    let _ = format!("{:?}", compressor);
}

#[test]
fn test_zlib_compressor_creation() {
    let compressor = ZlibCompressor::new();
    let _ = format!("{:?}", compressor);
}

#[test]
fn edge_144_http2_fingerprint() {
    let s = build_browser_settings(Impersonate::EdgeV144, ImpersonateOS::Linux);
    assert_eq!(settings_text(&s), "1:65536;2:0;4:6291456;6:262144");
    assert_eq!(s.http2.window_update_delta(), Some(15663105));
    assert_eq!(pseudo_text(&s), "m,a,s,p");
    assert_eq!(
        header(&s, "user-agent"),
        Some("Mozilla/5.0 (X11; Linux x86_64) AppleWebKit/537.36 (KHTML, like Gecko) Chrome/144.0.0.0 Safari/537.36 Edg/144.0.0.0")
    );
    assert_eq!(s.http2.headers_stream_dependency, Some(primp::priority::StreamDependency::chrome()));
}

#[test]
fn firefox_140_http2_fingerprint() {
    let s = build_browser_settings(Impersonate::FirefoxV140, ImpersonateOS::Linux);
    assert_eq!(settings_text(&s), "1:65536;2:0;4:131072;5:16384");
    assert_eq!(s.http2.window_update_delta(), Some(12517377));
    assert_eq!(pseudo_text(&s), "m,p,a,s");
    assert_eq!(
        header(&s, "user-agent"),
        Some("Mozilla/5.0 (X11; Linux x86_64; rv:140.0) Gecko/20100101 Firefox/140.0")
    );
}

#[test]
fn firefox_146_http2_fingerprint() {
    let s = build_browser_settings(Impersonate::FirefoxV146, ImpersonateOS::Linux);
    assert_eq!(settings_text(&s), "1:65536;2:0;4:131072;5:16384");
    assert_eq!(s.http2.window_update_delta(), Some(12517377));
    assert_eq!(pseudo_text(&s), "m,p,a,s");
}

#[test]
fn safari_26_http2_fingerprint() {
    for os in [ImpersonateOS::MacOS, ImpersonateOS::IOS] {
        let s = build_browser_settings(Impersonate::SafariV26, os);
        assert_eq!(settings_text(&s), "2:0;3:100;4:2097152;9:1");
        assert_eq!(s.http2.window_update_delta(), Some(10420225));
        assert_eq!(pseudo_text(&s), "m,s,a,p");
    }
    let ios = build_browser_settings(Impersonate::SafariV26, ImpersonateOS::IOS);
    assert_eq!(ios.browser_emulator.os_type, Some(BrowserEmulatorOS::IOS));
    assert_eq!(ios.emulation_profile.extension_order_seed, 0x6560);
}

#[test]
fn safari_18_5_http2_fingerprint() {
    let s = build_browser_settings(Impersonate::SafariV18_5, ImpersonateOS::MacOS);
    assert_eq!(settings_text(&s), "2:0;3:100;4:2097152;9:1");
    assert_eq!(s.http2.window_update_delta(), Some(10420225));
    assert_eq!(s.emulation_profile.extension_order_seed, 0x9a7c);
    assert_eq!(s.browser_emulator.version, BrowserVersion::new(18, 5, 0));
    assert_eq!(
        header(&s, "user-agent"),
        Some("Mozilla/5.0 (Macintosh; Intel Mac OS X 10_15_7) AppleWebKit/605.1.15 (KHTML, like Gecko) Version/18.5 Safari/605.1.15")
    );
}

#[test]
fn opera_profiles_use_chromium_fingerprint() {
    for imp in [Impersonate::OperaV126, Impersonate::OperaV127] {
        let s = build_browser_settings(imp, ImpersonateOS::Linux);
        assert_eq!(settings_text(&s), "1:65536;2:0;4:6291456;6:262144");
        assert_eq!(s.http2.window_update_delta(), Some(15663105));
        assert_eq!(pseudo_text(&s), "m,a,s,p");
        assert_eq!(s.emulation_profile.cipher_suites, chrome_cipher_suites());
    }
    let s = build_browser_settings(Impersonate::OperaV126, ImpersonateOS::Linux);
    assert_eq!(
        header(&s, "user-agent"),
        Some("Mozilla/5.0 (X11; Linux x86_64) AppleWebKit/537.36 (KHTML, like Gecko) Chrome/142.0.0.0 Safari/537.36 OPR/126.0.0.0")
    );
}

#[test]
fn building_a_profile_twice_gives_the_same_parameters() {
    for imp in [Impersonate::ChromeV145, Impersonate::EdgeV144, Impersonate::SafariV26, Impersonate::FirefoxV146] {
        let a = build_browser_settings(imp, ImpersonateOS::MacOS);
        let b = build_browser_settings(imp, ImpersonateOS::MacOS);
        assert_eq!(a.emulation_profile.cipher_suites, b.emulation_profile.cipher_suites);
        assert_eq!(a.emulation_profile.signature_algorithms, b.emulation_profile.signature_algorithms);
        assert_eq!(a.emulation_profile.named_groups, b.emulation_profile.named_groups);
        assert_eq!(a.http2.settings_order, b.http2.settings_order);
        assert_eq!(a.http2.headers_pseudo_order, b.http2.headers_pseudo_order);
        assert_eq!(a.headers, b.headers);
        assert_eq!(settings_text(&a), settings_text(&b));
    }
}

#[test]
fn accept_encoding_matches_enabled_decoders() {
    for imp in [Impersonate::ChromeV144, Impersonate::EdgeV145, Impersonate::FirefoxV140, Impersonate::SafariV26] {
        let s = build_browser_settings(imp, ImpersonateOS::Windows);
        assert_eq!(header(&s, "accept-encoding"), Some(accept_encoding(s.gzip, s.brotli, s.zstd)));
    }
    assert_eq!(accept_encoding(true, true, true), "gzip, deflate, br, zstd");
    assert_eq!(accept_encoding(true, true, false), "gzip, deflate, br");
    assert_eq!(accept_encoding(false, false, false), "deflate");
    let ff = build_browser_settings(Impersonate::FirefoxV140, ImpersonateOS::Windows);
    assert!(!ff.zstd);
    assert_eq!(header(&ff, "sec-ch-ua"), None);
}

#[test]
fn chromium_client_hints() {
    let s = build_browser_settings(Impersonate::EdgeV145, ImpersonateOS::MacOS);
    assert_eq!(header(&s, "sec-ch-ua"), Some(r#""Microsoft Edge";v="145", "Chromium";v="145", "Not/A)Brand";v="24""#));
    assert_eq!(header(&s, "sec-ch-ua-platform"), Some(r#""macOS""#));
    assert_eq!(s.headers.len(), 11);
}

#[test]
fn tls_tables() {
    assert_eq!(chrome_cipher_suites().len(), 16);
    assert_eq!(chrome_cipher_suites()[1], TLS13_AES_128_GCM_SHA256);
    assert_eq!(firefox_cipher_suites().len(), 17);
    assert_eq!(firefox_cipher_suites()[0], 0x002f);
    assert_eq!(safari_signature_algorithms().len(), 10);
    let edge = EmulationProfile::edge();
    let chrome = EmulationProfile::chrome();
    assert_eq!(edge.cipher_suites, chrome.cipher_suites);
    assert_eq!(edge.extension_order_seed, chrome.extension_order_seed);
    assert_eq!(EmulationProfile::firefox().named_groups, vec![0x11ec, 0x001d, 0x0017, 0x0018]);
}

#[test]
fn unsupported_identifier_fails() {
    assert_eq!(parse_impersonate("chrome_200", 0), Err(SelectionError::UnsupportedImpersonate));
    assert_eq!(parse_impersonate_os("beos", 0), Err(SelectionError::UnsupportedOS));
    assert_eq!(parse_impersonate("edge_144", 0), Ok(Impersonate::EdgeV144));
    assert_eq!(parse_impersonate("safari_18.5", 0), Ok(Impersonate::SafariV18_5));
    assert_eq!(parse_impersonate("random", 3), Ok(Impersonate::EdgeV145));
    assert_eq!(parse_impersonate_os("macos", 0), Ok(ImpersonateOS::MacOS));
    assert_eq!(parse_impersonate_os("random", 4), Ok(ImpersonateOS::IOS));
}

#[test]
fn unsupported_identifier_falls_back_and_warns_once() {
    let mut log = FallbackLog::new();
    assert_eq!(log.parse_impersonate_with_fallback("chrome_200", 8), (Impersonate::FirefoxV140, true));
    assert_eq!(log.parse_impersonate_with_fallback("chrome_200", 2), (Impersonate::EdgeV144, false));
    assert_eq!(log.parse_impersonate_with_fallback("opera_1", 0), (Impersonate::ChromeV144, true));
    assert_eq!(log.parse_impersonate_with_fallback("firefox_146", 0), (Impersonate::FirefoxV146, false));
    assert_eq!(log.parse_impersonate_os_with_fallback("plan9", 1), (ImpersonateOS::MacOS, true));
    assert_eq!(log.parse_impersonate_os_with_fallback("plan9", 1), (ImpersonateOS::MacOS, false));
    assert!(log.contains("chrome_200"));
    assert!(!log.contains("chrome_144"));
}

#[test]
fn open_selection_parts_are_filled() {
    assert_eq!(
        resolve_impersonate_config(None, Some(ImpersonateOS::Linux), 9, 0),
        (Impersonate::FirefoxV146, ImpersonateOS::Linux)
    );
    assert_eq!(
        resolve_impersonate_config(Some(Impersonate::OperaV127), None, 0, 3),
        (Impersonate::OperaV127, ImpersonateOS::Android)
    );
    let (imp, os) = get_random_impersonate_config(Some(Impersonate::SafariV26), Some(ImpersonateOS::IOS));
    assert_eq!((imp, os), (Impersonate::SafariV26, ImpersonateOS::IOS));
    let _ = random_impersonate();
    let _ = random_impersonate_os();
    let s = configure_impersonate(Impersonate::EdgeV144, None);
    assert_eq!(s.browser_emulator.browser_type, BrowserType::Edge);
}

#[test]
fn cache_builds_once() {
    let mut cache = ProfileCache::new();
    assert!(cache.get(Impersonate::EdgeV144, ImpersonateOS::Linux).is_none());
    cache.load(Impersonate::EdgeV144, ImpersonateOS::Linux);
    cache.load(Impersonate::EdgeV144, ImpersonateOS::Linux);
    let s = cache.get(Impersonate::EdgeV144, ImpersonateOS::Linux).unwrap();
    assert_eq!(settings_text(s), "1:65536;2:0;4:6291456;6:262144");
    assert!(cache.get(Impersonate::EdgeV144, ImpersonateOS::Windows).is_none());
}

#[test]
fn browser_version_parse() {
    assert_eq!(BrowserVersion::parse("120.0.6099.130"), Some(BrowserVersion::new(120, 0, 6099)));
    assert_eq!(BrowserVersion::parse("18.5"), Some(BrowserVersion::new(18, 5, 0)));
    assert_eq!(BrowserVersion::parse("146"), Some(BrowserVersion::new(146, 0, 0)));
    assert_eq!(BrowserVersion::parse("+7.x.3"), Some(BrowserVersion::new(7, 0, 3)));
    assert_eq!(BrowserVersion::parse("1.70000.2"), Some(BrowserVersion::new(1, 0, 2)));
    assert_eq!(BrowserVersion::parse(""), None);
    assert_eq!(BrowserVersion::parse("v120"), None);
    assert_eq!(BrowserVersion::parse("65536"), None);
    assert_eq!(BrowserVersion::parse(".1"), None);
}

#[test]
fn browser_emulator_constructors() {
    let e = BrowserEmulator::safari("26.0").unwrap().with_os_type(BrowserEmulatorOS::IOS).with_extension_order_seed(7);
    assert_eq!(e.browser_type, BrowserType::Safari);
    assert_eq!(e.version, BrowserVersion::new(26, 0, 0));
    assert_eq!(e.os_type, Some(BrowserEmulatorOS::IOS));
    assert_eq!(e.extension_order_seed, Some(7));
    assert!(e.is_safari() && !e.is_firefox() && !e.is_chrome_based());
    assert!(BrowserEmulator::opera("127").unwrap().is_chrome_based());
    assert!(BrowserEmulator::edge("144.0").unwrap().is_chrome_based());
    assert!(BrowserEmulator::chrome("144").unwrap().is_chrome_based());
    assert!(BrowserEmulator::firefox("140.0").unwrap().is_firefox());
    assert_eq!(BrowserEmulator::firefox("x"), None);
    let d = BrowserEmulator::default();
    assert_eq!(d.version, BrowserVersion::new(120, 0, 0));
    assert_eq!(d.cipher_suites, None);
}

#[test]
fn http2_defaults() {
    let h = Http2Data::default();
    assert_eq!(h.initial_stream_window_size, Some(6291456));
    assert_eq!(h.window_update_delta(), Some(15728640 - 65535));
    let s = h.to_settings();
    assert_eq!(s.settings_order().to_vec().len(), 8);
    assert_eq!(s.is_push_enabled(), Some(false));
}
