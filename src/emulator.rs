//! What the TLS layer is told about the browser it emulates: family, version,
//! operating system, and the ordered parameter lists of its ClientHello.
use vstd::prelude::*;

verus! {

/// The browser families that can be emulated.
#[derive(Debug, Clone, Copy, PartialEq, Eq, Structural, Hash)]
pub enum BrowserType {
    Chrome,
    Firefox,
    Edge,
    Safari,
    Opera,
}

/// The operating systems that a TLS fingerprint can be specific to.
#[derive(Debug, Clone, Copy, PartialEq, Eq, Structural, Hash)]
pub enum BrowserEmulatorOS {
    MacOS,
    IOS,
    Windows,
    Linux,
    Android,
}

/// A browser version, major.minor.patch.
#[derive(Debug, Clone, Copy, PartialEq, Eq, Structural, Hash)]
pub struct BrowserVersion {
    pub major: u16,
    pub minor: u16,
    pub patch: u16,
}

/// The fields of `s` between dots, as `str::split('.')` gives them: at least
/// one, possibly empty.
pub open spec fn split_dots(s: Seq<char>) -> Seq<Seq<char>>
    decreases s.len(),
{
    if s.len() == 0 {
        seq![Seq::<char>::empty()]
    } else {
        let rest = split_dots(s.drop_last());
        if s.last() == '.' {
            rest.push(Seq::<char>::empty())
        } else {
            rest.update(rest.len() - 1, rest.last().push(s.last()))
        }
    }
}

pub open spec fn is_digit(c: char) -> bool {
    '0' <= c && c <= '9'
}

/// The value of a run of decimal digits.
pub open spec fn digits_value(d: Seq<char>) -> nat
    decreases d.len(),
{
    if d.len() == 0 {
        0
    } else {
        digits_value(d.drop_last()) * 10 + ((d.last() as u32) - ('0' as u32)) as nat
    }
}

/// A number's characters after an optional leading `+`.
pub open spec fn unsigned_part(s: Seq<char>) -> Seq<char> {
    if s.len() > 0 && s[0] == '+' {
        s.skip(1)
    } else {
        s
    }
}

pub open spec fn all_digits(d: Seq<char>) -> bool {
    forall|i: int| 0 <= i < d.len() ==> is_digit(#[trigger] d[i])
}

/// What `str::parse::<u16>` gives: an optional `+`, then one or more decimal
/// digits whose value fits in 16 bits.
pub open spec fn parse_u16_spec(s: Seq<char>) -> Option<u16> {
    let d = unsigned_part(s);
    if d.len() == 0 || !all_digits(d) {
        None
    } else if digits_value(d) > 0xffff {
        None
    } else {
        Some(digits_value(d) as u16)
    }
}

/// The version that a dotted string names: its first field is the major
/// version and must parse; the second and third, where they parse, are the
/// minor and patch versions, else 0; further fields are ignored.
pub open spec fn parse_version_spec(s: Seq<char>) -> Option<BrowserVersion> {
    let parts = split_dots(s);
    match parse_u16_spec(parts[0]) {
        None => None,
        Some(major) => {
            let minor = if parts.len() > 1 { parse_u16_spec(parts[1]) } else { None };
            let patch = if parts.len() > 2 { parse_u16_spec(parts[2]) } else { None };
            Some(BrowserVersion {
                major,
                minor: match minor { Some(v) => v, None => 0 },
                patch: match patch { Some(v) => v, None => 0 },
            })
        },
    }
}

proof fn lemma_split_nonempty(s: Seq<char>)
    ensures
        split_dots(s).len() >= 1,
    decreases s.len(),
{
    if s.len() > 0 {
        lemma_split_nonempty(s.drop_last());
    }
}

proof fn lemma_digits_grow(d: Seq<char>, i: int)
    requires
        0 <= i <= d.len(),
        forall|j: int| 0 <= j < d.len() ==> is_digit(#[trigger] d[j]),
    ensures
        digits_value(d.take(i)) <= digits_value(d),
    decreases d.len() - i,
{
    if i < d.len() {
        lemma_digits_grow(d, i + 1);
        assert(d.take(i + 1).drop_last() =~= d.take(i));
    } else {
        assert(d.take(i) =~= d);
    }
}

/// Parses a field as `str::parse::<u16>` does.
fn parse_u16(s: &Vec<char>) -> (r: Option<u16>)
    ensures
        r == parse_u16_spec(s@),
{
    let n = s.len();
    let start: usize = if n > 0 && s[0] == '+' { 1 } else { 0 };
    let ghost d = unsigned_part(s@);
    assert(d =~= s@.subrange(start as int, n as int));
    if start == n {
        return None;
    }
    let mut acc: u32 = 0;
    let mut i: usize = start;
    while i < n
        invariant
            start <= i <= n,
            n == s@.len(),
            d == s@.subrange(start as int, n as int),
            d == unsigned_part(s@),
            d.len() > 0,
            forall|j: int| 0 <= j < i - start ==> is_digit(#[trigger] d[j]),
            acc as nat == digits_value(d.take(i - start)),
            acc <= 0xffff,
        decreases n - i,
    {
        let c = s[i];
        if !('0' <= c && c <= '9') {
            proof {
                assert(d[i - start] == c);
                assert(!is_digit(d[i - start]));
                assert(!all_digits(d));
            }
            return None;
        }
        let digit = (c as u32) - ('0' as u32);
        proof {
            assert(d.take(i - start + 1).drop_last() =~= d.take(i - start));
            assert(d.take(i - start + 1).last() == c);
        }
        let next = acc * 10 + digit;
        if next > 0xffff {
            proof {
                let k = i - start + 1;
                if all_digits(d) {
                    lemma_digits_grow(d, k);
                }
            }
            return None;
        }
        acc = next;
        i += 1;
    }
    assert(d.take(n - start) =~= d);
    Some(acc as u16)
}

/// Splits `s` at its dots into fields of characters.
fn split_fields(s: &str) -> (r: Vec<Vec<char>>)
    ensures
        r@.len() == split_dots(s@).len(),
        forall|i: int| 0 <= i < r@.len() ==> (#[trigger] r@[i])@ == split_dots(s@)[i],
{
    let n = s.unicode_len();
    let mut done: Vec<Vec<char>> = Vec::new();
    let mut cur: Vec<char> = Vec::new();
    let mut i: usize = 0;
    while i < n
        invariant
            n == s@.len(),
            i <= n,
            split_dots(s@.take(i as int)).len() == done@.len() + 1,
            forall|j: int| 0 <= j < done@.len() ==> (#[trigger] done@[j])@ == split_dots(s@.take(i as int))[j],
            cur@ == split_dots(s@.take(i as int))[done@.len() as int],
        decreases n - i,
    {
        let c = s.get_char(i);
        let ghost prev = split_dots(s@.take(i as int));
        proof {
            assert(s@.take(i as int + 1).drop_last() =~= s@.take(i as int));
            assert(s@.take(i as int + 1).last() == c);
        }
        if c == '.' {
            done.push(cur);
            cur = Vec::new();
            proof {
                let next = split_dots(s@.take(i as int + 1));
                assert(next == prev.push(Seq::<char>::empty()));
                assert forall|j: int| 0 <= j < done@.len() implies (#[trigger] done@[j])@ == next[j] by {
                    if j < done@.len() - 1 {
                        assert(next[j] == prev[j]);
                    }
                }
            }
        } else {
            cur.push(c);
            proof {
                let next = split_dots(s@.take(i as int + 1));
                assert(next == prev.update(prev.len() - 1, prev.last().push(c)));
                assert forall|j: int| 0 <= j < done@.len() implies (#[trigger] done@[j])@ == next[j] by {
                    assert(next[j] == prev[j]);
                }
            }
        }
        i += 1;
    }
    done.push(cur);
    proof {
        assert(s@.take(n as int) =~= s@);
        let parts = split_dots(s@);
        assert forall|j: int| 0 <= j < done@.len() implies (#[trigger] done@[j])@ == parts[j] by {
        }
    }
    done
}

impl BrowserVersion {
    pub fn new(major: u16, minor: u16, patch: u16) -> (r: Self)
        ensures
            r == (BrowserVersion { major, minor, patch }),
    {
        BrowserVersion { major, minor, patch }
    }

    /// Parses a dotted version such as `"120.0.6099.130"`: the major version
    /// must be present; a missing or malformed minor or patch version is 0.
    pub fn parse(version: &str) -> (r: Option<Self>)
        ensures
            r == parse_version_spec(version@),
    {
        let parts = split_fields(version);
        proof {
            lemma_split_nonempty(version@);
        }
        let major = match parse_u16(&parts[0]) {
            Some(v) => v,
            None => return None,
        };
        let minor = if parts.len() > 1 {
            match parse_u16(&parts[1]) {
                Some(v) => v,
                None => 0,
            }
        } else {
            0
        };
        let patch = if parts.len() > 2 {
            match parse_u16(&parts[2]) {
                Some(v) => v,
                None => 0,
            }
        } else {
            0
        };
        Some(Self::new(major, minor, patch))
    }
}

impl Default for BrowserVersion {
    fn default() -> (r: BrowserVersion)
        ensures
            r == (BrowserVersion { major: 0, minor: 0, patch: 0 }),
    {
        BrowserVersion { major: 0, minor: 0, patch: 0 }
    }
}

/// The emulation settings handed to the TLS layer.
#[derive(Debug, Clone, PartialEq, Eq)]
pub struct BrowserEmulator {
    /// The browser family to emulate.
    pub browser_type: BrowserType,
    /// The browser version to emulate.
    pub version: BrowserVersion,
    /// The seed that fixes the order of ClientHello extensions.
    pub extension_order_seed: Option<u16>,
    /// The cipher suites to offer, by wire code, instead of the defaults.
    pub cipher_suites: Option<Vec<u16>>,
    /// The signature algorithms to offer, by wire code, instead of the defaults.
    pub signature_algorithms: Option<Vec<u16>>,
    /// The named groups to offer, by wire code, instead of the defaults.
    pub named_groups: Option<Vec<u16>>,
    /// The operating system, where the fingerprint depends on it.
    pub os_type: Option<BrowserEmulatorOS>,
}

impl BrowserEmulator {
    /// An emulator of the given browser with the TLS layer's default lists.
    pub fn new(browser_type: BrowserType, version: BrowserVersion) -> (r: Self)
        ensures
            r.browser_type == browser_type,
            r.version == version,
            r.extension_order_seed is None,
            r.cipher_suites is None,
            r.signature_algorithms is None,
            r.named_groups is None,
            r.os_type is None,
    {
        BrowserEmulator {
            browser_type,
            version,
            extension_order_seed: None,
            cipher_suites: None,
            signature_algorithms: None,
            named_groups: None,
            os_type: None,
        }
    }

    /// Sets the operating system.
    pub fn with_os_type(self, os: BrowserEmulatorOS) -> (r: Self)
        ensures
            r == (BrowserEmulator { os_type: Some(os), ..self }),
    {
        BrowserEmulator { os_type: Some(os), ..self }
    }

    /// A Chrome emulator for a dotted version; `None` if it does not parse.
    pub fn chrome(version: &str) -> (r: Option<Self>)
        ensures
            r == family_emulator(BrowserType::Chrome, version@),
    {
        Some(Self::new(BrowserType::Chrome, BrowserVersion::parse(version)?))
    }

    /// A Firefox emulator for a dotted version; `None` if it does not parse.
    pub fn firefox(version: &str) -> (r: Option<Self>)
        ensures
            r == family_emulator(BrowserType::Firefox, version@),
    {
        Some(Self::new(BrowserType::Firefox, BrowserVersion::parse(version)?))
    }

    /// An Edge emulator for a dotted version; `None` if it does not parse.
    pub fn edge(version: &str) -> (r: Option<Self>)
        ensures
            r == family_emulator(BrowserType::Edge, version@),
    {
        Some(Self::new(BrowserType::Edge, BrowserVersion::parse(version)?))
    }

    /// A Safari emulator for a dotted version; `None` if it does not parse.
    pub fn safari(version: &str) -> (r: Option<Self>)
        ensures
            r == family_emulator(BrowserType::Safari, version@),
    {
        Some(Self::new(BrowserType::Safari, BrowserVersion::parse(version)?))
    }

    /// An Opera emulator for a dotted version; `None` if it does not parse.
    pub fn opera(version: &str) -> (r: Option<Self>)
        ensures
            r == family_emulator(BrowserType::Opera, version@),
    {
        Some(Self::new(BrowserType::Opera, BrowserVersion::parse(version)?))
    }

    /// Sets the extension order seed.
    pub fn with_extension_order_seed(self, seed: u16) -> (r: Self)
        ensures
            r == (BrowserEmulator { extension_order_seed: Some(seed), ..self }),
    {
        BrowserEmulator { extension_order_seed: Some(seed), ..self }
    }

    /// Whether the browser is built on Chromium: Chrome, Edge or Opera.
    pub fn is_chrome_based(&self) -> (r: bool)
        ensures
            r == (self.browser_type == BrowserType::Chrome || self.browser_type == BrowserType::Edge
                || self.browser_type == BrowserType::Opera),
    {
        matches!(self.browser_type, BrowserType::Chrome | BrowserType::Edge | BrowserType::Opera)
    }

    pub fn is_firefox(&self) -> (r: bool)
        ensures
            r == (self.browser_type == BrowserType::Firefox),
    {
        matches!(self.browser_type, BrowserType::Firefox)
    }

    pub fn is_safari(&self) -> (r: bool)
        ensures
            r == (self.browser_type == BrowserType::Safari),
    {
        matches!(self.browser_type, BrowserType::Safari)
    }
}

/// The emulation settings, as plain values.
pub struct EmulatorModel {
    pub browser_type: BrowserType,
    pub version: BrowserVersion,
    pub extension_order_seed: Option<u16>,
    pub cipher_suites: Option<Seq<u16>>,
    pub signature_algorithms: Option<Seq<u16>>,
    pub named_groups: Option<Seq<u16>>,
    pub os_type: Option<BrowserEmulatorOS>,
}

/// The view of an optional list of codes.
pub open spec fn codes_view(v: Option<Vec<u16>>) -> Option<Seq<u16>> {
    match v {
        Some(l) => Some(l@),
        None => None,
    }
}

impl View for BrowserEmulator {
    type V = EmulatorModel;

    open spec fn view(&self) -> EmulatorModel {
        EmulatorModel {
            browser_type: self.browser_type,
            version: self.version,
            extension_order_seed: self.extension_order_seed,
            cipher_suites: codes_view(self.cipher_suites),
            signature_algorithms: codes_view(self.signature_algorithms),
            named_groups: codes_view(self.named_groups),
            os_type: self.os_type,
        }
    }
}

/// The emulator of a family for a version string, with default lists.
pub open spec fn family_emulator(browser_type: BrowserType, version: Seq<char>) -> Option<BrowserEmulator> {
    match parse_version_spec(version) {
        Some(v) => Some(BrowserEmulator {
            browser_type,
            version: v,
            extension_order_seed: None,
            cipher_suites: None,
            signature_algorithms: None,
            named_groups: None,
            os_type: None,
        }),
        None => None,
    }
}

impl Default for BrowserEmulator {
    /// Chrome 120 with the TLS layer's default lists.
    fn default() -> (r: BrowserEmulator)
        ensures
            r.browser_type == BrowserType::Chrome,
            r.version == (BrowserVersion { major: 120, minor: 0, patch: 0 }),
            r.extension_order_seed is None,
            r.cipher_suites is None,
            r.signature_algorithms is None,
            r.named_groups is None,
            r.os_type is None,
    {
        BrowserEmulator {
            browser_type: BrowserType::Chrome,
            version: BrowserVersion::new(120, 0, 0),
            extension_order_seed: None,
            cipher_suites: None,
            signature_algorithms: None,
            named_groups: None,
            os_type: None,
        }
    }
}

} // verus!
