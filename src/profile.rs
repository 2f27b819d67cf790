//! Browser profiles: for each emulated browser version and operating system,
//! the TLS emulation, the HTTP/2 connection preface parameters, the default
//! request headers and the response encodings that the browser accepts.
use vstd::prelude::*;
use crate::agents::{
    chrome_user_agent, chrome_user_agent_spec, chrome_sec_ch_ua, chrome_sec_ch_ua_spec, edge_user_agent,
    edge_user_agent_spec, edge_sec_ch_ua, edge_sec_ch_ua_spec, opera_user_agent, opera_user_agent_spec,
    opera_sec_ch_ua, opera_sec_ch_ua_spec, firefox_user_agent, firefox_user_agent_spec, safari_user_agent,
    safari_user_agent_spec, os_platform, os_platform_spec,
};
use crate::emulator::{BrowserEmulator, BrowserEmulatorOS, BrowserType, BrowserVersion, EmulatorModel};
use crate::headers::{
    accept_encoding, accept_encoding_spec, chromium_headers, chromium_headers_spec, firefox_headers,
    firefox_headers_spec, safari_headers, safari_headers_spec, headers_view,
};
use crate::priority::{Priorities, Priority, StreamDependency};
use crate::pseudo::{PseudoId, PseudoOrder, push_pseudo};
use crate::settings::{Settings, DEFAULT_INITIAL_WINDOW_SIZE, DEFAULT_MAX_FRAME_SIZE, MAX_MAX_FRAME_SIZE};
use crate::settings_order::{SettingId, SettingsOrder, canonical_ids};
use crate::tls::{
    EmulationProfile, ProfileTables, chromium_tables, safari_tables, firefox_tables, chrome_cipher_suites,
    chrome_signature_algorithms, chrome_named_groups, safari_cipher_suites, safari_signature_algorithms,
    safari_named_groups, firefox_cipher_suites, firefox_signature_algorithms, firefox_named_groups,
    spec_chrome_cipher_suites, spec_chrome_signature_algorithms, spec_chrome_named_groups,
    spec_safari_cipher_suites, spec_safari_signature_algorithms, spec_safari_named_groups,
    spec_firefox_cipher_suites, spec_firefox_signature_algorithms, spec_firefox_named_groups,
    CHROME_EXTENSION_SEED, EDGE_EXTENSION_SEED, FIREFOX_EXTENSION_SEED, SAFARI_EXTENSION_SEED,
    SAFARI_18_5_EXTENSION_SEED, SAFARI_26_EXTENSION_SEED,
};

verus! {

/// The browser versions that can be emulated.
#[derive(Debug, Clone, Copy, PartialEq, Eq, Structural, Hash)]
pub enum Impersonate {
    ChromeV144,
    ChromeV145,
    EdgeV144,
    EdgeV145,
    OperaV126,
    OperaV127,
    SafariV18_5,
    SafariV26,
    FirefoxV140,
    FirefoxV146,
}

/// The operating systems whose browsers can be emulated.
#[derive(Debug, Clone, Copy, PartialEq, Eq, Structural, Hash)]
pub enum ImpersonateOS {
    Windows,
    MacOS,
    Linux,
    Android,
    IOS,
}

impl Default for ImpersonateOS {
    fn default() -> (r: ImpersonateOS)
        ensures
            r == ImpersonateOS::Windows,
    {
        ImpersonateOS::Windows
    }
}

impl Impersonate {
    /// The browser family of a version.
    pub open spec fn spec_family(self) -> BrowserType {
        match self {
            Impersonate::ChromeV144 | Impersonate::ChromeV145 => BrowserType::Chrome,
            Impersonate::EdgeV144 | Impersonate::EdgeV145 => BrowserType::Edge,
            Impersonate::OperaV126 | Impersonate::OperaV127 => BrowserType::Opera,
            Impersonate::SafariV18_5 | Impersonate::SafariV26 => BrowserType::Safari,
            Impersonate::FirefoxV140 | Impersonate::FirefoxV146 => BrowserType::Firefox,
        }
    }

    pub fn family(self) -> (r: BrowserType)
        ensures
            r == self.spec_family(),
    {
        match self {
            Impersonate::ChromeV144 | Impersonate::ChromeV145 => BrowserType::Chrome,
            Impersonate::EdgeV144 | Impersonate::EdgeV145 => BrowserType::Edge,
            Impersonate::OperaV126 | Impersonate::OperaV127 => BrowserType::Opera,
            Impersonate::SafariV18_5 | Impersonate::SafariV26 => BrowserType::Safari,
            Impersonate::FirefoxV140 | Impersonate::FirefoxV146 => BrowserType::Firefox,
        }
    }
}

/// HTTP/2 parameters, as plain values.
pub struct Http2Model {
    pub initial_stream_window_size: Option<u32>,
    pub initial_connection_window_size: Option<u32>,
    pub max_concurrent_streams: Option<u32>,
    pub max_frame_size: Option<u32>,
    pub max_header_list_size: Option<u32>,
    pub header_table_size: Option<u32>,
    pub enable_push: Option<bool>,
    pub enable_connect_protocol: Option<bool>,
    pub no_rfc7540_priorities: Option<bool>,
    pub settings_order: Option<Seq<SettingId>>,
    pub headers_pseudo_order: Option<Seq<PseudoId>>,
    pub headers_stream_dependency: Option<StreamDependency>,
    pub priorities: Option<Seq<Priority>>,
}

/// The HTTP/2 parameters of a browser's connections.
#[derive(Debug)]
pub struct Http2Data {
    /// Initial stream-level flow control window.
    pub initial_stream_window_size: Option<u32>,
    /// Initial connection-level flow control window.
    pub initial_connection_window_size: Option<u32>,
    /// Maximum number of concurrent streams.
    pub max_concurrent_streams: Option<u32>,
    /// Largest frame payload.
    pub max_frame_size: Option<u32>,
    /// Largest header list.
    pub max_header_list_size: Option<u32>,
    /// Size of the header compression table.
    pub header_table_size: Option<u32>,
    /// Whether server push is enabled.
    pub enable_push: Option<bool>,
    /// Whether the Extended CONNECT protocol is enabled.
    pub enable_connect_protocol: Option<bool>,
    /// Whether RFC 7540 priorities are disabled.
    pub no_rfc7540_priorities: Option<bool>,
    /// The order of the SETTINGS frame.
    pub settings_order: Option<SettingsOrder>,
    /// The order of the request pseudo-headers.
    pub headers_pseudo_order: Option<PseudoOrder>,
    /// The stream dependency sent with HEADERS frames.
    pub headers_stream_dependency: Option<StreamDependency>,
    /// The PRIORITY frames sent when the connection starts.
    pub priorities: Option<Priorities>,
}

impl View for Http2Data {
    type V = Http2Model;

    open spec fn view(&self) -> Http2Model {
        Http2Model {
            initial_stream_window_size: self.initial_stream_window_size,
            initial_connection_window_size: self.initial_connection_window_size,
            max_concurrent_streams: self.max_concurrent_streams,
            max_frame_size: self.max_frame_size,
            max_header_list_size: self.max_header_list_size,
            header_table_size: self.header_table_size,
            enable_push: self.enable_push,
            enable_connect_protocol: self.enable_connect_protocol,
            no_rfc7540_priorities: self.no_rfc7540_priorities,
            settings_order: match self.settings_order {
                Some(o) => Some(o@),
                None => None,
            },
            headers_pseudo_order: match self.headers_pseudo_order {
                Some(o) => Some(o@),
                None => None,
            },
            headers_stream_dependency: self.headers_stream_dependency,
            priorities: match self.priorities {
                Some(p) => Some(p@),
                None => None,
            },
        }
    }
}

/// The optional flag as a setting value, 1 or 0.
pub open spec fn flag_value(b: Option<bool>) -> Option<u32> {
    match b {
        Some(true) => Some(1u32),
        Some(false) => Some(0u32),
        None => None,
    }
}

fn flag_to_value(b: Option<bool>) -> (r: Option<u32>)
    ensures
        r == flag_value(b),
{
    match b {
        Some(true) => Some(1),
        Some(false) => Some(0),
        None => None,
    }
}

impl Default for Http2Data {
    /// Generous windows and limits, push off, and no fingerprint orders.
    fn default() -> (r: Http2Data)
        ensures
            r.initial_stream_window_size == Some(6291456u32),
            r.initial_connection_window_size == Some(15728640u32),
            r.max_concurrent_streams == Some(1000u32),
            r.max_frame_size == Some(16384u32),
            r.max_header_list_size == Some(262144u32),
            r.header_table_size == Some(65536u32),
            r.enable_push == Some(false),
            r.enable_connect_protocol == Some(false),
            r.no_rfc7540_priorities == Some(false),
            r.settings_order is None,
            r.headers_pseudo_order is None,
            r.headers_stream_dependency is None,
            r.priorities is None,
    {
        Http2Data {
            initial_stream_window_size: Some(6291456),
            initial_connection_window_size: Some(15728640),
            max_concurrent_streams: Some(1000),
            max_frame_size: Some(16384),
            max_header_list_size: Some(262144),
            header_table_size: Some(65536),
            enable_push: Some(false),
            enable_connect_protocol: Some(false),
            no_rfc7540_priorities: Some(false),
            settings_order: None,
            headers_pseudo_order: None,
            headers_stream_dependency: None,
            priorities: None,
        }
    }
}

/// The values that a SETTINGS frame carries for these parameters, by
/// canonical position.
pub open spec fn settings_values(h: Http2Model) -> Seq<Option<u32>> {
    seq![
        h.header_table_size,
        flag_value(h.enable_push),
        h.max_concurrent_streams,
        h.initial_stream_window_size,
        h.max_frame_size,
        h.max_header_list_size,
        flag_value(h.enable_connect_protocol),
        flag_value(h.no_rfc7540_priorities),
    ]
}

/// The WINDOW_UPDATE increment that raises the connection window from its
/// protocol default to the configured size.
pub open spec fn window_update_delta_spec(h: Http2Model) -> Option<u32> {
    match h.initial_connection_window_size {
        Some(w) => if w > DEFAULT_INITIAL_WINDOW_SIZE {
            Some((w - DEFAULT_INITIAL_WINDOW_SIZE) as u32)
        } else {
            None
        },
        None => None,
    }
}

impl Http2Data {
    /// The SETTINGS frame that a connection with these parameters sends: the
    /// configured values, in the configured order (canonical if none).
    pub fn to_settings(&self) -> (r: Settings)
        requires
            self.max_frame_size matches Some(v) ==> DEFAULT_MAX_FRAME_SIZE <= v && v <= MAX_MAX_FRAME_SIZE,
        ensures
            r.values() == settings_values(self@),
            r.order() == (match self@.settings_order {
                Some(o) => o,
                None => canonical_ids(),
            }),
            !r.spec_is_ack(),
    {
        let mut s = Settings::default();
        s.set_header_table_size(self.header_table_size);
        s.set_enable_connect_protocol(flag_to_value(self.enable_connect_protocol));
        s.set_max_concurrent_streams(self.max_concurrent_streams);
        s.set_initial_window_size(self.initial_stream_window_size);
        s.set_max_frame_size(self.max_frame_size);
        s.set_max_header_list_size(self.max_header_list_size);
        s.set_no_rfc7540_priorities(flag_to_value(self.no_rfc7540_priorities));
        match self.enable_push {
            Some(b) => s.set_enable_push(b),
            None => {},
        }
        match &self.settings_order {
            Some(o) => s.set_settings_order(o.clone()),
            None => {},
        }
        proof {
            assert(s.values() =~= settings_values(self@));
        }
        s
    }

    /// The increment of the WINDOW_UPDATE frame sent when a connection starts:
    /// the configured connection window less the protocol's default window;
    /// `None` where no larger window is configured.
    pub fn window_update_delta(&self) -> (r: Option<u32>)
        ensures
            r == window_update_delta_spec(self@),
    {
        match self.initial_connection_window_size {
            Some(w) => if w > DEFAULT_INITIAL_WINDOW_SIZE {
                Some(w - DEFAULT_INITIAL_WINDOW_SIZE)
            } else {
                None
            },
            None => None,
        }
    }
}

/// The settings order that Chromium-based browsers send: 1, 2, 4, 6.
pub open spec fn chromium_settings_order() -> Seq<SettingId> {
    seq![SettingId::HeaderTableSize, SettingId::EnablePush, SettingId::InitialWindowSize, SettingId::MaxHeaderListSize]
}

/// The settings order of older Opera versions: 1, 2, 4, 6, 8, 9.
pub open spec fn legacy_opera_settings_order() -> Seq<SettingId> {
    chromium_settings_order().push(SettingId::EnableConnectProtocol).push(SettingId::NoRfc7540Priorities)
}

/// Firefox's settings order: 1, 2, 4, 5.
pub open spec fn firefox_settings_order() -> Seq<SettingId> {
    seq![SettingId::HeaderTableSize, SettingId::EnablePush, SettingId::InitialWindowSize, SettingId::MaxFrameSize]
}

/// Safari's settings order: 2, 3, 4, 9.
pub open spec fn safari_settings_order() -> Seq<SettingId> {
    seq![SettingId::EnablePush, SettingId::MaxConcurrentStreams, SettingId::InitialWindowSize, SettingId::NoRfc7540Priorities]
}

/// Chromium's pseudo-header order: m, a, s, p.
pub open spec fn chromium_pseudo_order() -> Seq<PseudoId> {
    seq![PseudoId::Method, PseudoId::Authority, PseudoId::Scheme, PseudoId::Path]
}

/// Firefox's pseudo-header order: m, p, a, s.
pub open spec fn firefox_pseudo_order() -> Seq<PseudoId> {
    seq![PseudoId::Method, PseudoId::Path, PseudoId::Authority, PseudoId::Scheme]
}

/// Safari's pseudo-header order: m, s, a, p.
pub open spec fn safari_pseudo_order() -> Seq<PseudoId> {
    seq![PseudoId::Method, PseudoId::Scheme, PseudoId::Authority, PseudoId::Path]
}

/// The fixed anchor dependency: stream 0, weight 255, exclusive.
pub open spec fn is_anchor(d: StreamDependency) -> bool {
    d.spec_dependency_id().0 == 0 && d.spec_weight() == 255 && d.spec_is_exclusive()
}

/// The HTTP/2 parameters of a Chromium-based browser, with the given settings
/// order and connect-protocol and priority flags.
pub open spec fn chromium_http2(h: Http2Model, order: Seq<SettingId>, extra: Option<bool>) -> bool {
    &&& h.initial_stream_window_size == Some(6291456u32)
    &&& h.initial_connection_window_size == Some(15728640u32)
    &&& h.max_concurrent_streams is None
    &&& h.max_frame_size is None
    &&& h.max_header_list_size == Some(262144u32)
    &&& h.header_table_size == Some(65536u32)
    &&& h.enable_push == Some(false)
    &&& h.enable_connect_protocol == extra
    &&& h.no_rfc7540_priorities == extra
    &&& h.settings_order == Some(order)
    &&& h.headers_pseudo_order == Some(chromium_pseudo_order())
    &&& h.headers_stream_dependency matches Some(d) && is_anchor(d)
    &&& h.priorities is None
}

/// Firefox's HTTP/2 parameters.
pub open spec fn firefox_http2(h: Http2Model) -> bool {
    &&& h.initial_stream_window_size == Some(131072u32)
    &&& h.initial_connection_window_size == Some(12582912u32)
    &&& h.max_concurrent_streams is None
    &&& h.max_frame_size == Some(16384u32)
    &&& h.max_header_list_size is None
    &&& h.header_table_size == Some(65536u32)
    &&& h.enable_push == Some(false)
    &&& h.enable_connect_protocol is None
    &&& h.no_rfc7540_priorities is None
    &&& h.settings_order == Some(firefox_settings_order())
    &&& h.headers_pseudo_order == Some(firefox_pseudo_order())
    &&& h.headers_stream_dependency is None
    &&& h.priorities is None
}

/// Safari's HTTP/2 parameters.
pub open spec fn safari_http2(h: Http2Model) -> bool {
    &&& h.initial_stream_window_size == Some(2097152u32)
    &&& h.initial_connection_window_size == Some(10485760u32)
    &&& h.max_concurrent_streams == Some(100u32)
    &&& h.max_frame_size is None
    &&& h.max_header_list_size is None
    &&& h.header_table_size is None
    &&& h.enable_push == Some(false)
    &&& h.enable_connect_protocol is None
    &&& h.no_rfc7540_priorities == Some(true)
    &&& h.settings_order == Some(safari_settings_order())
    &&& h.headers_pseudo_order == Some(safari_pseudo_order())
    &&& h.headers_stream_dependency is None
    &&& h.priorities is None
}

/// Builds an order from distinct identifiers.
fn order_of(ids: Vec<SettingId>) -> (r: SettingsOrder)
    requires
        ids@.no_duplicates(),
    ensures
        r@ == ids@,
{
    proof {
        crate::settings_order::lemma_extend_distinct(Seq::<SettingId>::empty(), ids@);
        assert(Seq::<SettingId>::empty() + ids@ =~= ids@);
    }
    SettingsOrder::builder().extend(ids).build_without_extend()
}

/// Builds a pseudo-header order from four distinct pseudo-headers.
fn pseudo_of(a: PseudoId, b: PseudoId, c: PseudoId, d: PseudoId) -> (r: PseudoOrder)
    requires
        a != b && a != c && a != d && b != c && b != d && c != d,
    ensures
        r@ == seq![a, b, c, d],
{
    let r = PseudoOrder::builder().push(a).push(b).push(c).push(d).build();
    proof {
        assert(!seq![a].contains(b));
        assert(!seq![a, b].contains(c)) by {
            assert(seq![a, b][0] == a && seq![a, b][1] == b);
        }
        assert(!seq![a, b, c].contains(d)) by {
            assert(seq![a, b, c][0] == a && seq![a, b, c][1] == b && seq![a, b, c][2] == c);
        }
        assert(push_pseudo(Seq::<PseudoId>::empty(), a) =~= seq![a]);
        assert(push_pseudo(seq![a], b) =~= seq![a, b]);
        assert(push_pseudo(seq![a, b], c) =~= seq![a, b, c]);
        assert(push_pseudo(seq![a, b, c], d) =~= seq![a, b, c, d]);
    }
    r
}

/// The HTTP/2 parameters of a Chromium-based browser: settings 1, 2, 4, 6,
/// pseudo-headers m, a, s, p, and the anchor dependency on HEADERS.
pub fn chromium_http2_settings() -> (r: Http2Data)
    ensures
        chromium_http2(r@, chromium_settings_order(), None),
{
    let settings_order = order_of(vec![
        SettingId::HeaderTableSize,
        SettingId::EnablePush,
        SettingId::InitialWindowSize,
        SettingId::MaxHeaderListSize,
    ]);
    let headers_pseudo_order = pseudo_of(PseudoId::Method, PseudoId::Authority, PseudoId::Scheme, PseudoId::Path);
    Http2Data {
        initial_stream_window_size: Some(6291456),
        initial_connection_window_size: Some(15728640),
        max_concurrent_streams: None,
        max_frame_size: None,
        max_header_list_size: Some(262144),
        header_table_size: Some(65536),
        enable_push: Some(false),
        enable_connect_protocol: None,
        no_rfc7540_priorities: None,
        settings_order: Some(settings_order),
        headers_pseudo_order: Some(headers_pseudo_order),
        headers_stream_dependency: Some(StreamDependency::chrome()),
        priorities: None,
    }
}

/// The HTTP/2 parameters of an Opera version: those of Chromium for the
/// current versions; for others, also settings 8 and 9, both on.
pub fn opera_http2_settings(opera: Impersonate) -> (r: Http2Data)
    ensures
        opera == Impersonate::OperaV126 || opera == Impersonate::OperaV127 ==> chromium_http2(
            r@,
            chromium_settings_order(),
            None,
        ),
        !(opera == Impersonate::OperaV126 || opera == Impersonate::OperaV127) ==> chromium_http2(
            r@,
            legacy_opera_settings_order(),
            Some(true),
        ),
{
    match opera {
        Impersonate::OperaV126 | Impersonate::OperaV127 => chromium_http2_settings(),
        _ => {
            let settings_order = order_of(vec![
                SettingId::HeaderTableSize,
                SettingId::EnablePush,
                SettingId::InitialWindowSize,
                SettingId::MaxHeaderListSize,
                SettingId::EnableConnectProtocol,
                SettingId::NoRfc7540Priorities,
            ]);
            proof {
                assert(settings_order@ =~= legacy_opera_settings_order());
            }
            let headers_pseudo_order = pseudo_of(PseudoId::Method, PseudoId::Authority, PseudoId::Scheme, PseudoId::Path);
            Http2Data {
                initial_stream_window_size: Some(6291456),
                initial_connection_window_size: Some(15728640),
                max_concurrent_streams: None,
                max_frame_size: None,
                max_header_list_size: Some(262144),
                header_table_size: Some(65536),
                enable_push: Some(false),
                enable_connect_protocol: Some(true),
                no_rfc7540_priorities: Some(true),
                settings_order: Some(settings_order),
                headers_pseudo_order: Some(headers_pseudo_order),
                headers_stream_dependency: Some(StreamDependency::chrome()),
                priorities: None,
            }
        },
    }
}

/// Firefox's HTTP/2 parameters: settings 1, 2, 4, 5, a connection window
/// whose update is 12517377, and pseudo-headers m, p, a, s.
pub fn firefox_http2_settings() -> (r: Http2Data)
    ensures
        firefox_http2(r@),
{
    let settings_order = order_of(vec![
        SettingId::HeaderTableSize,
        SettingId::EnablePush,
        SettingId::InitialWindowSize,
        SettingId::MaxFrameSize,
    ]);
    let headers_pseudo_order = pseudo_of(PseudoId::Method, PseudoId::Path, PseudoId::Authority, PseudoId::Scheme);
    Http2Data {
        initial_stream_window_size: Some(131072),
        initial_connection_window_size: Some(12517377 + 65535),
        max_concurrent_streams: None,
        max_frame_size: Some(16384),
        max_header_list_size: None,
        header_table_size: Some(65536),
        enable_push: Some(false),
        enable_connect_protocol: None,
        no_rfc7540_priorities: None,
        settings_order: Some(settings_order),
        headers_pseudo_order: Some(headers_pseudo_order),
        headers_stream_dependency: None,
        priorities: None,
    }
}

/// Safari's HTTP/2 parameters, the same on every system: settings 2, 3, 4, 9,
/// a connection window whose update is 10420225, and pseudo-headers
/// m, s, a, p.
pub fn safari_http2_settings(_os: ImpersonateOS) -> (r: Http2Data)
    ensures
        safari_http2(r@),
{
    let settings_order = order_of(vec![
        SettingId::EnablePush,
        SettingId::MaxConcurrentStreams,
        SettingId::InitialWindowSize,
        SettingId::NoRfc7540Priorities,
    ]);
    let headers_pseudo_order = pseudo_of(PseudoId::Method, PseudoId::Scheme, PseudoId::Authority, PseudoId::Path);
    Http2Data {
        initial_stream_window_size: Some(2097152),
        initial_connection_window_size: Some(10485760),
        max_concurrent_streams: Some(100),
        max_frame_size: None,
        max_header_list_size: None,
        header_table_size: None,
        enable_push: Some(false),
        enable_connect_protocol: None,
        no_rfc7540_priorities: Some(true),
        settings_order: Some(settings_order),
        headers_pseudo_order: Some(headers_pseudo_order),
        headers_stream_dependency: None,
        priorities: None,
    }
}

/// The parts of a browser profile, as plain values.
pub struct ProfileModel {
    pub emulator: EmulatorModel,
    pub tables: ProfileTables,
    pub http2: Http2Model,
    pub headers: Seq<(Seq<char>, Seq<char>)>,
    pub gzip: bool,
    pub brotli: bool,
    pub zstd: bool,
}

/// Everything needed to emulate one browser version on one system: the TLS
/// emulation, the HTTP/2 parameters, the default headers, and which response
/// encodings are accepted.
#[derive(Debug)]
pub struct BrowserSettings {
    /// What the TLS layer is told about the browser.
    pub browser_emulator: BrowserEmulator,
    /// The ClientHello parameter lists.
    pub emulation_profile: EmulationProfile,
    /// The HTTP/2 parameters.
    pub http2: Http2Data,
    /// The default request headers, in order, as (name, value).
    pub headers: Vec<(&'static str, &'static str)>,
    /// Whether gzip responses are accepted.
    pub gzip: bool,
    /// Whether brotli responses are accepted.
    pub brotli: bool,
    /// Whether zstd responses are accepted.
    pub zstd: bool,
}

impl View for BrowserSettings {
    type V = ProfileModel;

    open spec fn view(&self) -> ProfileModel {
        ProfileModel {
            emulator: self.browser_emulator@,
            tables: self.emulation_profile@,
            http2: self.http2@,
            headers: headers_view(self.headers@),
            gzip: self.gzip,
            brotli: self.brotli,
            zstd: self.zstd,
        }
    }
}

/// The response encodings a family accepts: gzip, brotli, zstd.
pub open spec fn encodings_spec(family: BrowserType) -> (bool, bool, bool) {
    match family {
        BrowserType::Chrome | BrowserType::Edge | BrowserType::Opera => (true, true, true),
        BrowserType::Firefox | BrowserType::Safari => (true, true, false),
    }
}

/// The major version that a Chromium-based variant announces.
pub open spec fn chromium_major(imp: Impersonate) -> u16 {
    match imp {
        Impersonate::ChromeV145 | Impersonate::EdgeV145 => 145,
        Impersonate::OperaV126 => 126,
        Impersonate::ChromeV144 | Impersonate::EdgeV144 => 144,
        _ => if imp.spec_family() == BrowserType::Opera { 127 } else { 144 },
    }
}

/// What the TLS layer is told for a browser version on a system.
pub open spec fn emulator_spec(imp: Impersonate, os: ImpersonateOS) -> EmulatorModel {
    match imp.spec_family() {
        BrowserType::Chrome | BrowserType::Edge | BrowserType::Opera => EmulatorModel {
            browser_type: imp.spec_family(),
            version: BrowserVersion { major: chromium_major(imp), minor: 0, patch: 0 },
            extension_order_seed: Some(CHROME_EXTENSION_SEED),
            cipher_suites: Some(spec_chrome_cipher_suites()),
            signature_algorithms: Some(spec_chrome_signature_algorithms()),
            named_groups: Some(spec_chrome_named_groups()),
            os_type: None,
        },
        BrowserType::Firefox => EmulatorModel {
            browser_type: BrowserType::Firefox,
            version: BrowserVersion {
                major: if imp == Impersonate::FirefoxV146 { 146 } else { 140 },
                minor: 0,
                patch: 0,
            },
            extension_order_seed: Some(FIREFOX_EXTENSION_SEED),
            cipher_suites: Some(spec_firefox_cipher_suites()),
            signature_algorithms: Some(spec_firefox_signature_algorithms()),
            named_groups: Some(spec_firefox_named_groups()),
            os_type: None,
        },
        BrowserType::Safari => EmulatorModel {
            browser_type: BrowserType::Safari,
            version: if imp == Impersonate::SafariV18_5 {
                BrowserVersion { major: 18, minor: 5, patch: 0 }
            } else {
                BrowserVersion { major: 26, minor: 0, patch: 0 }
            },
            extension_order_seed: Some(safari_seed(imp)),
            cipher_suites: Some(spec_safari_cipher_suites()),
            signature_algorithms: Some(spec_safari_signature_algorithms()),
            named_groups: Some(spec_safari_named_groups()),
            os_type: Some(if os == ImpersonateOS::IOS { BrowserEmulatorOS::IOS } else { BrowserEmulatorOS::MacOS }),
        },
    }
}

/// The extension order seed of a Safari version.
pub open spec fn safari_seed(imp: Impersonate) -> u16 {
    match imp {
        Impersonate::SafariV26 => SAFARI_26_EXTENSION_SEED,
        Impersonate::SafariV18_5 => SAFARI_18_5_EXTENSION_SEED,
        _ => SAFARI_EXTENSION_SEED,
    }
}

/// The ClientHello lists of a browser version.
pub open spec fn tables_spec(imp: Impersonate) -> ProfileTables {
    match imp.spec_family() {
        BrowserType::Chrome | BrowserType::Opera => chromium_tables(CHROME_EXTENSION_SEED),
        BrowserType::Edge => chromium_tables(EDGE_EXTENSION_SEED),
        BrowserType::Firefox => firefox_tables(),
        BrowserType::Safari => safari_tables(safari_seed(imp)),
    }
}

/// The default headers of a browser version on a system.
pub open spec fn headers_spec(imp: Impersonate, os: ImpersonateOS) -> Seq<(Seq<char>, Seq<char>)> {
    let (g, b, z) = encodings_spec(imp.spec_family());
    let enc = accept_encoding_spec(g, b, z);
    match imp.spec_family() {
        BrowserType::Chrome => chromium_headers_spec(
            chrome_user_agent_spec(imp, os),
            chrome_sec_ch_ua_spec(imp),
            os_platform_spec(os),
            enc,
        ),
        BrowserType::Edge => chromium_headers_spec(
            edge_user_agent_spec(imp, os),
            edge_sec_ch_ua_spec(imp),
            os_platform_spec(os),
            enc,
        ),
        BrowserType::Opera => chromium_headers_spec(
            opera_user_agent_spec(imp, os),
            opera_sec_ch_ua_spec(imp),
            os_platform_spec(os),
            enc,
        ),
        BrowserType::Firefox => firefox_headers_spec(firefox_user_agent_spec(imp, os), enc),
        BrowserType::Safari => safari_headers_spec(safari_user_agent_spec(imp, os), enc),
    }
}

/// The HTTP/2 parameters of a browser version.
pub open spec fn http2_spec(h: Http2Model, imp: Impersonate) -> bool {
    match imp.spec_family() {
        BrowserType::Chrome | BrowserType::Edge | BrowserType::Opera => chromium_http2(
            h,
            chromium_settings_order(),
            None,
        ),
        BrowserType::Firefox => firefox_http2(h),
        BrowserType::Safari => safari_http2(h),
    }
}

/// Whether `p` is the profile of browser version `imp` on system `os`.
pub open spec fn profile_spec(p: ProfileModel, imp: Impersonate, os: ImpersonateOS) -> bool {
    &&& p.emulator == emulator_spec(imp, os)
    &&& p.tables == tables_spec(imp)
    &&& http2_spec(p.http2, imp)
    &&& p.headers == headers_spec(imp, os)
    &&& (p.gzip, p.brotli, p.zstd) == encodings_spec(imp.spec_family())
}

/// An emulator with the given lists and seed.
fn emulator_with(
    browser_type: BrowserType,
    version: BrowserVersion,
    cipher_suites: Vec<u16>,
    signature_algorithms: Vec<u16>,
    named_groups: Vec<u16>,
    seed: u16,
) -> (r: BrowserEmulator)
    ensures
        r@ == (EmulatorModel {
            browser_type,
            version,
            extension_order_seed: Some(seed),
            cipher_suites: Some(cipher_suites@),
            signature_algorithms: Some(signature_algorithms@),
            named_groups: Some(named_groups@),
            os_type: None,
        }),
{
    let mut emulator = BrowserEmulator::new(browser_type, version);
    emulator.cipher_suites = Some(cipher_suites);
    emulator.signature_algorithms = Some(signature_algorithms);
    emulator.named_groups = Some(named_groups);
    emulator.extension_order_seed = Some(seed);
    emulator
}

/// Chrome's profile for a version and system.
pub fn build_chrome_settings(chrome: Impersonate, os: ImpersonateOS) -> (r: BrowserSettings)
    requires
        chrome.spec_family() == BrowserType::Chrome,
    ensures
        profile_spec(r@, chrome, os),
{
    let ua = chrome_user_agent(chrome, os);
    let ch = chrome_sec_ch_ua(chrome);
    let headers = chromium_headers(ua, ch, os_platform(os), accept_encoding(true, true, true));
    let major: u16 = if chrome == Impersonate::ChromeV145 { 145 } else { 144 };
    let browser_emulator = emulator_with(
        BrowserType::Chrome,
        BrowserVersion::new(major, 0, 0),
        chrome_cipher_suites(),
        chrome_signature_algorithms(),
        chrome_named_groups(),
        CHROME_EXTENSION_SEED,
    );
    BrowserSettings {
        browser_emulator,
        emulation_profile: EmulationProfile::chrome(),
        http2: chromium_http2_settings(),
        headers,
        gzip: true,
        brotli: true,
        zstd: true,
    }
}

/// Edge's profile for a version and system: Chrome's TLS and HTTP/2
/// parameters with Edge's headers.
pub fn build_edge_settings(edge: Impersonate, os: ImpersonateOS) -> (r: BrowserSettings)
    requires
        edge.spec_family() == BrowserType::Edge,
    ensures
        profile_spec(r@, edge, os),
{
    let ua = edge_user_agent(edge, os);
    let ch = edge_sec_ch_ua(edge);
    let headers = chromium_headers(ua, ch, os_platform(os), accept_encoding(true, true, true));
    let major: u16 = if edge == Impersonate::EdgeV145 { 145 } else { 144 };
    let browser_emulator = emulator_with(
        BrowserType::Edge,
        BrowserVersion::new(major, 0, 0),
        chrome_cipher_suites(),
        chrome_signature_algorithms(),
        chrome_named_groups(),
        EDGE_EXTENSION_SEED,
    );
    BrowserSettings {
        browser_emulator,
        emulation_profile: EmulationProfile::edge(),
        http2: chromium_http2_settings(),
        headers,
        gzip: true,
        brotli: true,
        zstd: true,
    }
}

/// Opera's profile for a version and system: Chrome's TLS parameters with
/// Opera's headers.
pub fn build_opera_settings(opera: Impersonate, os: ImpersonateOS) -> (r: BrowserSettings)
    requires
        opera.spec_family() == BrowserType::Opera,
    ensures
        profile_spec(r@, opera, os),
{
    let ua = opera_user_agent(opera, os);
    let ch = opera_sec_ch_ua(opera);
    let headers = chromium_headers(ua, ch, os_platform(os), accept_encoding(true, true, true));
    let major: u16 = if opera == Impersonate::OperaV126 { 126 } else { 127 };
    let browser_emulator = emulator_with(
        BrowserType::Opera,
        BrowserVersion::new(major, 0, 0),
        chrome_cipher_suites(),
        chrome_signature_algorithms(),
        chrome_named_groups(),
        CHROME_EXTENSION_SEED,
    );
    BrowserSettings {
        browser_emulator,
        emulation_profile: EmulationProfile::chrome(),
        http2: opera_http2_settings(opera),
        headers,
        gzip: true,
        brotli: true,
        zstd: true,
    }
}

/// Firefox's profile for a version and system.
pub fn build_firefox_settings(firefox: Impersonate, os: ImpersonateOS) -> (r: BrowserSettings)
    requires
        firefox.spec_family() == BrowserType::Firefox,
    ensures
        profile_spec(r@, firefox, os),
{
    let ua = firefox_user_agent(firefox, os);
    let headers = firefox_headers(ua, accept_encoding(true, true, false));
    let major: u16 = if firefox == Impersonate::FirefoxV146 { 146 } else { 140 };
    let browser_emulator = emulator_with(
        BrowserType::Firefox,
        BrowserVersion::new(major, 0, 0),
        firefox_cipher_suites(),
        firefox_signature_algorithms(),
        firefox_named_groups(),
        FIREFOX_EXTENSION_SEED,
    );
    BrowserSettings {
        browser_emulator,
        emulation_profile: EmulationProfile::firefox(),
        http2: firefox_http2_settings(),
        headers,
        gzip: true,
        brotli: true,
        zstd: false,
    }
}

/// Safari's profile for a version and system; systems other than macOS and
/// iOS get the macOS fingerprint.
pub fn build_safari_settings(safari: Impersonate, os: ImpersonateOS) -> (r: BrowserSettings)
    requires
        safari.spec_family() == BrowserType::Safari,
    ensures
        profile_spec(r@, safari, os),
{
    let ua = safari_user_agent(safari, os);
    let headers = safari_headers(ua, accept_encoding(true, true, false));
    let browser_os = match os {
        ImpersonateOS::MacOS => BrowserEmulatorOS::MacOS,
        ImpersonateOS::IOS => BrowserEmulatorOS::IOS,
        _ => BrowserEmulatorOS::MacOS,
    };
    let (version, seed) = match safari {
        Impersonate::SafariV26 => (BrowserVersion::new(26, 0, 0), SAFARI_26_EXTENSION_SEED),
        Impersonate::SafariV18_5 => (BrowserVersion::new(18, 5, 0), SAFARI_18_5_EXTENSION_SEED),
        _ => (BrowserVersion::new(26, 0, 0), SAFARI_EXTENSION_SEED),
    };
    let mut browser_emulator = emulator_with(
        BrowserType::Safari,
        version,
        safari_cipher_suites(),
        safari_signature_algorithms(),
        safari_named_groups(),
        seed,
    );
    browser_emulator.os_type = Some(browser_os);
    let emulation_profile = match safari {
        Impersonate::SafariV18_5 => EmulationProfile::safari_v18_5(),
        Impersonate::SafariV26 => EmulationProfile::safari_v26(),
        _ => EmulationProfile::safari(),
    };
    BrowserSettings {
        browser_emulator,
        emulation_profile,
        http2: safari_http2_settings(os),
        headers,
        gzip: true,
        brotli: true,
        zstd: false,
    }
}

/// The profile of a browser version on a system.
pub fn build_browser_settings(imp: Impersonate, os: ImpersonateOS) -> (r: BrowserSettings)
    ensures
        profile_spec(r@, imp, os),
{
    match imp.family() {
        BrowserType::Chrome => build_chrome_settings(imp, os),
        BrowserType::Edge => build_edge_settings(imp, os),
        BrowserType::Opera => build_opera_settings(imp, os),
        BrowserType::Firefox => build_firefox_settings(imp, os),
        BrowserType::Safari => build_safari_settings(imp, os),
    }
}

/// Building the profile of one browser version on one system twice gives the
/// same cipher suites, signature algorithms, named groups, extension seed,
/// SETTINGS order, pseudo-header order and headers.
pub proof fn lemma_profile_deterministic(a: ProfileModel, b: ProfileModel, imp: Impersonate, os: ImpersonateOS)
    requires
        profile_spec(a, imp, os),
        profile_spec(b, imp, os),
    ensures
        a.tables == b.tables,
        a.emulator == b.emulator,
        a.http2.settings_order == b.http2.settings_order,
        a.http2.headers_pseudo_order == b.http2.headers_pseudo_order,
        a.http2.initial_connection_window_size == b.http2.initial_connection_window_size,
        settings_values(a.http2) == settings_values(b.http2),
        a.headers == b.headers,
        (a.gzip, a.brotli, a.zstd) == (b.gzip, b.brotli, b.zstd),
{
}

/// The `accept-encoding` header of every profile advertises exactly the
/// response encodings that the profile accepts.
pub proof fn lemma_encodings_consistent(p: ProfileModel, imp: Impersonate, os: ImpersonateOS)
    requires
        profile_spec(p, imp, os),
    ensures
        exists|i: int| 0 <= i < p.headers.len() && (#[trigger] p.headers[i]) == ("accept-encoding"@, accept_encoding_spec(p.gzip, p.brotli, p.zstd)),
{
    let (g, b, z) = encodings_spec(imp.spec_family());
    let enc = accept_encoding_spec(g, b, z);
    match imp.spec_family() {
        BrowserType::Chrome | BrowserType::Edge | BrowserType::Opera => {
            assert(p.headers[9] == ("accept-encoding"@, enc));
        },
        BrowserType::Firefox | BrowserType::Safari => {
            assert(p.headers[3] == ("accept-encoding"@, enc));
        },
    }
}

} // verus!
