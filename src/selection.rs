//! Resolving a browser and system selection: by identifier, with random
//! choice where a part is left open, and with an optional fallback for
//! identifiers that are not supported.
use vstd::prelude::*;
use crate::profile::{Impersonate, ImpersonateOS, BrowserSettings, profile_spec, build_browser_settings};

verus! {

/// Relies on `rand::random_range`: a uniformly drawn integer below `n`; it
/// panics only on an empty range.
#[verifier::external_body]
fn random_below(n: usize) -> (r: usize)
    requires
        n > 0,
    ensures
        r < n,
{
    rand::random_range(0..n)
}

/// The browser versions that a random choice picks from.
pub open spec fn impersonate_variants() -> Seq<Impersonate> {
    seq![
        Impersonate::ChromeV144,
        Impersonate::ChromeV145,
        Impersonate::EdgeV144,
        Impersonate::EdgeV145,
        Impersonate::OperaV126,
        Impersonate::OperaV127,
        Impersonate::SafariV26,
        Impersonate::SafariV18_5,
        Impersonate::FirefoxV140,
        Impersonate::FirefoxV146,
    ]
}

/// The systems that a random choice picks from.
pub open spec fn os_variants() -> Seq<ImpersonateOS> {
    seq![ImpersonateOS::Windows, ImpersonateOS::MacOS, ImpersonateOS::Linux, ImpersonateOS::Android, ImpersonateOS::IOS]
}

/// The number of browser versions.
pub const IMPERSONATE_COUNT: usize = 10;

/// The number of systems.
pub const OS_COUNT: usize = 5;

/// The browser version at position `pick` of the random choice list.
pub fn pick_impersonate(pick: usize) -> (r: Impersonate)
    requires
        pick < IMPERSONATE_COUNT,
    ensures
        r == impersonate_variants()[pick as int],
{
    let variants = vec![
        Impersonate::ChromeV144,
        Impersonate::ChromeV145,
        Impersonate::EdgeV144,
        Impersonate::EdgeV145,
        Impersonate::OperaV126,
        Impersonate::OperaV127,
        Impersonate::SafariV26,
        Impersonate::SafariV18_5,
        Impersonate::FirefoxV140,
        Impersonate::FirefoxV146,
    ];
    assert(variants@ =~= impersonate_variants());
    variants[pick]
}

/// The system at position `pick` of the random choice list.
pub fn pick_impersonate_os(pick: usize) -> (r: ImpersonateOS)
    requires
        pick < OS_COUNT,
    ensures
        r == os_variants()[pick as int],
{
    let variants = vec![
        ImpersonateOS::Windows,
        ImpersonateOS::MacOS,
        ImpersonateOS::Linux,
        ImpersonateOS::Android,
        ImpersonateOS::IOS,
    ];
    assert(variants@ =~= os_variants());
    variants[pick]
}

/// A browser version drawn at random.
pub fn random_impersonate() -> (r: Impersonate)
    ensures
        impersonate_variants().contains(r),
{
    let pick = random_below(IMPERSONATE_COUNT);
    let r = pick_impersonate(pick);
    assert(impersonate_variants()[pick as int] == r);
    r
}

/// A system drawn at random.
pub fn random_impersonate_os() -> (r: ImpersonateOS)
    ensures
        os_variants().contains(r),
{
    let pick = random_below(OS_COUNT);
    let r = pick_impersonate_os(pick);
    assert(os_variants()[pick as int] == r);
    r
}

/// Completes a selection: a given part is kept, an open part is the entry of
/// the random choice list at the drawn position.
pub fn resolve_impersonate_config(
    imp: Option<Impersonate>,
    os_type: Option<ImpersonateOS>,
    imp_pick: usize,
    os_pick: usize,
) -> (r: (Impersonate, ImpersonateOS))
    requires
        imp_pick < IMPERSONATE_COUNT,
        os_pick < OS_COUNT,
    ensures
        r.0 == (match imp {
            Some(i) => i,
            None => impersonate_variants()[imp_pick as int],
        }),
        r.1 == (match os_type {
            Some(o) => o,
            None => os_variants()[os_pick as int],
        }),
{
    let i = match imp {
        Some(i) => i,
        None => pick_impersonate(imp_pick),
    };
    let o = match os_type {
        Some(o) => o,
        None => pick_impersonate_os(os_pick),
    };
    (i, o)
}

/// Completes a selection, drawing each open part at random.
pub fn get_random_impersonate_config(imp: Option<Impersonate>, os_type: Option<ImpersonateOS>) -> (r: (
    Impersonate,
    ImpersonateOS,
))
    ensures
        imp matches Some(i) ==> r.0 == i,
        imp is None ==> impersonate_variants().contains(r.0),
        os_type matches Some(o) ==> r.1 == o,
        os_type is None ==> os_variants().contains(r.1),
{
    let imp_pick = random_below(IMPERSONATE_COUNT);
    let os_pick = random_below(OS_COUNT);
    let r = resolve_impersonate_config(imp, os_type, imp_pick, os_pick);
    assert(imp is None ==> impersonate_variants()[imp_pick as int] == r.0);
    assert(os_type is None ==> os_variants()[os_pick as int] == r.1);
    r
}

/// The profile of a browser version on the given system, or on one drawn at
/// random when none is given.
pub fn configure_impersonate(imp: Impersonate, os_type: Option<ImpersonateOS>) -> (r: BrowserSettings)
    ensures
        os_type matches Some(o) ==> profile_spec(r@, imp, o),
        os_type is None ==> exists|o: ImpersonateOS| os_variants().contains(o) && profile_spec(r@, imp, o),
{
    let (final_imp, final_os) = get_random_impersonate_config(Some(imp), os_type);
    build_browser_settings(final_imp, final_os)
}

/// Whether two strings hold the same characters.
pub fn str_eq(a: &str, b: &str) -> (r: bool)
    ensures
        r == (a@ == b@),
{
    let n = a.unicode_len();
    if n != b.unicode_len() {
        return false;
    }
    let mut i: usize = 0;
    while i < n
        invariant
            n == a@.len(),
            n == b@.len(),
            i <= n,
            forall|j: int| 0 <= j < i ==> a@[j] == b@[j],
        decreases n - i,
    {
        if a.get_char(i) != b.get_char(i) {
            return false;
        }
        i += 1;
    }
    assert(a@ =~= b@);
    true
}

/// The identifier of a browser version.
pub open spec fn impersonate_name(imp: Impersonate) -> Seq<char> {
    match imp {
        Impersonate::ChromeV144 => "chrome_144"@,
        Impersonate::ChromeV145 => "chrome_145"@,
        Impersonate::EdgeV144 => "edge_144"@,
        Impersonate::EdgeV145 => "edge_145"@,
        Impersonate::OperaV126 => "opera_126"@,
        Impersonate::OperaV127 => "opera_127"@,
        Impersonate::SafariV18_5 => "safari_18.5"@,
        Impersonate::SafariV26 => "safari_26"@,
        Impersonate::FirefoxV140 => "firefox_140"@,
        Impersonate::FirefoxV146 => "firefox_146"@,
    }
}

/// The identifier of a system.
pub open spec fn os_name(os: ImpersonateOS) -> Seq<char> {
    match os {
        ImpersonateOS::Windows => "windows"@,
        ImpersonateOS::MacOS => "macos"@,
        ImpersonateOS::Linux => "linux"@,
        ImpersonateOS::Android => "android"@,
        ImpersonateOS::IOS => "ios"@,
    }
}

/// The identifier that asks for a random choice.
pub open spec fn random_name() -> Seq<char> {
    "random"@
}

/// The browser version with identifier `s`, if any.
pub open spec fn impersonate_by_name(s: Seq<char>) -> Option<Impersonate> {
    if s == impersonate_name(Impersonate::ChromeV144) {
        Some(Impersonate::ChromeV144)
    } else if s == impersonate_name(Impersonate::ChromeV145) {
        Some(Impersonate::ChromeV145)
    } else if s == impersonate_name(Impersonate::EdgeV144) {
        Some(Impersonate::EdgeV144)
    } else if s == impersonate_name(Impersonate::EdgeV145) {
        Some(Impersonate::EdgeV145)
    } else if s == impersonate_name(Impersonate::OperaV126) {
        Some(Impersonate::OperaV126)
    } else if s == impersonate_name(Impersonate::OperaV127) {
        Some(Impersonate::OperaV127)
    } else if s == impersonate_name(Impersonate::SafariV18_5) {
        Some(Impersonate::SafariV18_5)
    } else if s == impersonate_name(Impersonate::SafariV26) {
        Some(Impersonate::SafariV26)
    } else if s == impersonate_name(Impersonate::FirefoxV140) {
        Some(Impersonate::FirefoxV140)
    } else if s == impersonate_name(Impersonate::FirefoxV146) {
        Some(Impersonate::FirefoxV146)
    } else {
        None
    }
}

/// The system with identifier `s`, if any.
pub open spec fn os_by_name(s: Seq<char>) -> Option<ImpersonateOS> {
    if s == os_name(ImpersonateOS::Windows) {
        Some(ImpersonateOS::Windows)
    } else if s == os_name(ImpersonateOS::MacOS) {
        Some(ImpersonateOS::MacOS)
    } else if s == os_name(ImpersonateOS::Linux) {
        Some(ImpersonateOS::Linux)
    } else if s == os_name(ImpersonateOS::Android) {
        Some(ImpersonateOS::Android)
    } else if s == os_name(ImpersonateOS::IOS) {
        Some(ImpersonateOS::IOS)
    } else {
        None
    }
}

/// Why a selection could not be resolved.
#[derive(Debug, Clone, Copy, PartialEq, Eq, Structural)]
pub enum SelectionError {
    /// No browser version has the identifier.
    UnsupportedImpersonate,
    /// No system has the identifier.
    UnsupportedOS,
}

/// The browser version that identifier `s` selects; `"random"` selects the
/// entry at `pick` of the random choice list.
pub open spec fn impersonate_selection(s: Seq<char>, pick: int) -> Result<Impersonate, SelectionError> {
    if s == random_name() {
        Ok(impersonate_variants()[pick])
    } else {
        match impersonate_by_name(s) {
            Some(i) => Ok(i),
            None => Err(SelectionError::UnsupportedImpersonate),
        }
    }
}

/// The system that identifier `s` selects; `"random"` selects the entry at
/// `pick` of the random choice list.
pub open spec fn os_selection(s: Seq<char>, pick: int) -> Result<ImpersonateOS, SelectionError> {
    if s == random_name() {
        Ok(os_variants()[pick])
    } else {
        match os_by_name(s) {
            Some(o) => Ok(o),
            None => Err(SelectionError::UnsupportedOS),
        }
    }
}

/// The browser version that an identifier selects, with `pick` standing for
/// the random draw.
pub fn parse_impersonate(s: &str, pick: usize) -> (r: Result<Impersonate, SelectionError>)
    requires
        pick < IMPERSONATE_COUNT,
    ensures
        r == impersonate_selection(s@, pick as int),
{
    if str_eq(s, "random") {
        return Ok(pick_impersonate(pick));
    }
    if str_eq(s, "chrome_144") {
        Ok(Impersonate::ChromeV144)
    } else if str_eq(s, "chrome_145") {
        Ok(Impersonate::ChromeV145)
    } else if str_eq(s, "edge_144") {
        Ok(Impersonate::EdgeV144)
    } else if str_eq(s, "edge_145") {
        Ok(Impersonate::EdgeV145)
    } else if str_eq(s, "opera_126") {
        Ok(Impersonate::OperaV126)
    } else if str_eq(s, "opera_127") {
        Ok(Impersonate::OperaV127)
    } else if str_eq(s, "safari_18.5") {
        Ok(Impersonate::SafariV18_5)
    } else if str_eq(s, "safari_26") {
        Ok(Impersonate::SafariV26)
    } else if str_eq(s, "firefox_140") {
        Ok(Impersonate::FirefoxV140)
    } else if str_eq(s, "firefox_146") {
        Ok(Impersonate::FirefoxV146)
    } else {
        Err(SelectionError::UnsupportedImpersonate)
    }
}

/// The system that an identifier selects, with `pick` standing for the
/// random draw.
pub fn parse_impersonate_os(s: &str, pick: usize) -> (r: Result<ImpersonateOS, SelectionError>)
    requires
        pick < OS_COUNT,
    ensures
        r == os_selection(s@, pick as int),
{
    if str_eq(s, "random") {
        return Ok(pick_impersonate_os(pick));
    }
    if str_eq(s, "windows") {
        Ok(ImpersonateOS::Windows)
    } else if str_eq(s, "macos") {
        Ok(ImpersonateOS::MacOS)
    } else if str_eq(s, "linux") {
        Ok(ImpersonateOS::Linux)
    } else if str_eq(s, "android") {
        Ok(ImpersonateOS::Android)
    } else if str_eq(s, "ios") {
        Ok(ImpersonateOS::IOS)
    } else {
        Err(SelectionError::UnsupportedOS)
    }
}

/// Records an unsupported identifier: whether a warning is due (the first
/// time only) and the identifiers warned about afterwards.
pub open spec fn note_unsupported(warned: Seq<Seq<char>>, s: Seq<char>) -> (bool, Seq<Seq<char>>) {
    if warned.contains(s) {
        (false, warned)
    } else {
        (true, warned.push(s))
    }
}

/// The identifiers already warned about, for the fallback to a random choice.
#[derive(Debug)]
pub struct FallbackLog {
    warned: Vec<String>,
}

impl View for FallbackLog {
    type V = Seq<Seq<char>>;

    closed spec fn view(&self) -> Seq<Seq<char>> {
        self.warned@.map_values(|w: String| w@)
    }
}

impl FallbackLog {
    /// A log with no identifier warned about.
    pub fn new() -> (r: FallbackLog)
        ensures
            r@ == Seq::<Seq<char>>::empty(),
    {
        let r = FallbackLog { warned: Vec::new() };
        assert(r@ =~= Seq::<Seq<char>>::empty());
        r
    }

    /// Whether `s` was warned about.
    pub fn contains(&self, s: &str) -> (r: bool)
        ensures
            r == self@.contains(s@),
    {
        let mut i: usize = 0;
        while i < self.warned.len()
            invariant
                i <= self.warned@.len(),
                forall|j: int| 0 <= j < i ==> self@[j] != s@,
            decreases self.warned@.len() - i,
        {
            if str_eq(self.warned[i].as_str(), s) {
                assert(self@[i as int] == s@);
                return true;
            }
            i += 1;
        }
        false
    }

    /// Notes an unsupported identifier; true when it is new, so that the
    /// caller warns once per identifier.
    pub fn note(&mut self, s: &str) -> (r: bool)
        ensures
            (r, final(self)@) == note_unsupported(old(self)@, s@),
    {
        if self.contains(s) {
            return false;
        }
        let ghost before = self@;
        self.warned.push(s.to_string());
        assert(self@ =~= before.push(s@));
        true
    }

    /// The browser version that an identifier selects; an unsupported one
    /// falls back to the random draw and reports whether to warn.
    pub fn parse_impersonate_with_fallback(&mut self, s: &str, pick: usize) -> (r: (Impersonate, bool))
        requires
            pick < IMPERSONATE_COUNT,
        ensures
            match impersonate_selection(s@, pick as int) {
                Ok(i) => r == (i, false) && final(self)@ == old(self)@,
                Err(_) => r.0 == impersonate_variants()[pick as int]
                    && (r.1, final(self)@) == note_unsupported(old(self)@, s@),
            },
    {
        match parse_impersonate(s, pick) {
            Ok(i) => (i, false),
            Err(_) => {
                let warn = self.note(s);
                (pick_impersonate(pick), warn)
            },
        }
    }

    /// The system that an identifier selects; an unsupported one falls back to
    /// the random draw and reports whether to warn.
    pub fn parse_impersonate_os_with_fallback(&mut self, s: &str, pick: usize) -> (r: (ImpersonateOS, bool))
        requires
            pick < OS_COUNT,
        ensures
            match os_selection(s@, pick as int) {
                Ok(o) => r == (o, false) && final(self)@ == old(self)@,
                Err(_) => r.0 == os_variants()[pick as int]
                    && (r.1, final(self)@) == note_unsupported(old(self)@, s@),
            },
    {
        match parse_impersonate_os(s, pick) {
            Ok(o) => (o, false),
            Err(_) => {
                let warn = self.note(s);
                (pick_impersonate_os(pick), warn)
            },
        }
    }
}

/// An unsupported identifier is warned about once: the first fallback warns
/// exactly when the identifier is new, and any later one for the same
/// identifier does not, nor changes the log.
pub proof fn lemma_warn_once(warned: Seq<Seq<char>>, s: Seq<char>)
    ensures
        note_unsupported(warned, s).0 == !warned.contains(s),
        note_unsupported(note_unsupported(warned, s).1, s).0 == false,
        note_unsupported(note_unsupported(warned, s).1, s).1 == note_unsupported(warned, s).1,
        note_unsupported(warned, s).1.contains(s),
{
    if !warned.contains(s) {
        assert(warned.push(s)[warned.len() as int] == s);
    }
}

} // verus!
