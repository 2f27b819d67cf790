//! The TLS ClientHello parameter lists of each emulated browser, by their
//! wire codes, and the emulation profiles built from them.
use vstd::prelude::*;

verus! {
// Cipher suites.
pub const TLS_RESERVED_GREASE: u16 = 0x0a0a;
pub const TLS13_AES_128_GCM_SHA256: u16 = 0x1301;
pub const TLS13_AES_256_GCM_SHA384: u16 = 0x1302;
pub const TLS13_CHACHA20_POLY1305_SHA256: u16 = 0x1303;
pub const TLS_ECDHE_ECDSA_WITH_AES_128_GCM_SHA256: u16 = 0xc02b;
pub const TLS_ECDHE_RSA_WITH_AES_128_GCM_SHA256: u16 = 0xc02f;
pub const TLS_ECDHE_ECDSA_WITH_AES_256_GCM_SHA384: u16 = 0xc02c;
pub const TLS_ECDHE_RSA_WITH_AES_256_GCM_SHA384: u16 = 0xc030;
pub const TLS_ECDHE_ECDSA_WITH_CHACHA20_POLY1305_SHA256: u16 = 0xcca9;
pub const TLS_ECDHE_RSA_WITH_CHACHA20_POLY1305_SHA256: u16 = 0xcca8;
pub const TLS_ECDHE_RSA_WITH_AES_128_CBC_SHA: u16 = 0xc013;
pub const TLS_ECDHE_RSA_WITH_AES_256_CBC_SHA: u16 = 0xc014;
pub const TLS_RSA_WITH_AES_128_GCM_SHA256: u16 = 0x009c;
pub const TLS_RSA_WITH_AES_256_GCM_SHA384: u16 = 0x009d;
pub const TLS_RSA_WITH_AES_128_CBC_SHA: u16 = 0x002f;
pub const TLS_RSA_WITH_AES_256_CBC_SHA: u16 = 0x0035;
pub const TLS_ECDHE_ECDSA_WITH_AES_256_CBC_SHA: u16 = 0xc00a;
pub const TLS_ECDHE_ECDSA_WITH_AES_128_CBC_SHA: u16 = 0xc009;
pub const TLS_ECDHE_ECDSA_WITH_3DES_EDE_CBC_SHA: u16 = 0xc008;
pub const TLS_ECDHE_RSA_WITH_3DES_EDE_CBC_SHA: u16 = 0xc012;
pub const TLS_RSA_WITH_3DES_EDE_CBC_SHA: u16 = 0x000a;

// Signature schemes.
pub const ECDSA_NISTP256_SHA256: u16 = 0x0403;
pub const RSA_PSS_SHA256: u16 = 0x0804;
pub const RSA_PKCS1_SHA256: u16 = 0x0401;
pub const ECDSA_NISTP384_SHA384: u16 = 0x0503;
pub const RSA_PSS_SHA384: u16 = 0x0805;
pub const RSA_PKCS1_SHA384: u16 = 0x0501;
pub const RSA_PSS_SHA512: u16 = 0x0806;
pub const RSA_PKCS1_SHA512: u16 = 0x0601;
pub const RSA_PKCS1_SHA1: u16 = 0x0201;
pub const ECDSA_NISTP521_SHA512: u16 = 0x0603;
pub const ECDSA_SHA1_LEGACY: u16 = 0x0203;

// Named groups.
pub const GREASE_GROUP: u16 = 0x0a0a;
pub const X25519MLKEM768: u16 = 0x11ec;
pub const X25519: u16 = 0x001d;
pub const SECP256R1: u16 = 0x0017;
pub const SECP384R1: u16 = 0x0018;

/// Chrome's cipher suites: a GREASE value, the TLS 1.3 suites, then the TLS 1.2 suites.
pub open spec fn spec_chrome_cipher_suites() -> Seq<u16> {
    seq![
        TLS_RESERVED_GREASE,
        TLS13_AES_128_GCM_SHA256,
        TLS13_AES_256_GCM_SHA384,
        TLS13_CHACHA20_POLY1305_SHA256,
        TLS_ECDHE_ECDSA_WITH_AES_128_GCM_SHA256,
        TLS_ECDHE_RSA_WITH_AES_128_GCM_SHA256,
        TLS_ECDHE_ECDSA_WITH_AES_256_GCM_SHA384,
        TLS_ECDHE_RSA_WITH_AES_256_GCM_SHA384,
        TLS_ECDHE_ECDSA_WITH_CHACHA20_POLY1305_SHA256,
        TLS_ECDHE_RSA_WITH_CHACHA20_POLY1305_SHA256,
        TLS_ECDHE_RSA_WITH_AES_128_CBC_SHA,
        TLS_ECDHE_RSA_WITH_AES_256_CBC_SHA,
        TLS_RSA_WITH_AES_128_GCM_SHA256,
        TLS_RSA_WITH_AES_256_GCM_SHA384,
        TLS_RSA_WITH_AES_128_CBC_SHA,
        TLS_RSA_WITH_AES_256_CBC_SHA,
    ]
}

/// Chrome's cipher suites: a GREASE value, the TLS 1.3 suites, then the TLS 1.2 suites.
pub fn chrome_cipher_suites() -> (r: Vec<u16>)
    ensures
        r@ == spec_chrome_cipher_suites(),
{
    let r = vec![
        TLS_RESERVED_GREASE,
        TLS13_AES_128_GCM_SHA256,
        TLS13_AES_256_GCM_SHA384,
        TLS13_CHACHA20_POLY1305_SHA256,
        TLS_ECDHE_ECDSA_WITH_AES_128_GCM_SHA256,
        TLS_ECDHE_RSA_WITH_AES_128_GCM_SHA256,
        TLS_ECDHE_ECDSA_WITH_AES_256_GCM_SHA384,
        TLS_ECDHE_RSA_WITH_AES_256_GCM_SHA384,
        TLS_ECDHE_ECDSA_WITH_CHACHA20_POLY1305_SHA256,
        TLS_ECDHE_RSA_WITH_CHACHA20_POLY1305_SHA256,
        TLS_ECDHE_RSA_WITH_AES_128_CBC_SHA,
        TLS_ECDHE_RSA_WITH_AES_256_CBC_SHA,
        TLS_RSA_WITH_AES_128_GCM_SHA256,
        TLS_RSA_WITH_AES_256_GCM_SHA384,
        TLS_RSA_WITH_AES_128_CBC_SHA,
        TLS_RSA_WITH_AES_256_CBC_SHA,
    ];
    assert(r@ =~= spec_chrome_cipher_suites());
    r
}

/// Safari's cipher suites, 3DES suites included.
pub open spec fn spec_safari_cipher_suites() -> Seq<u16> {
    seq![
        TLS13_AES_128_GCM_SHA256,
        TLS13_AES_256_GCM_SHA384,
        TLS13_CHACHA20_POLY1305_SHA256,
        TLS_ECDHE_ECDSA_WITH_AES_256_GCM_SHA384,
        TLS_ECDHE_ECDSA_WITH_AES_128_GCM_SHA256,
        TLS_ECDHE_ECDSA_WITH_CHACHA20_POLY1305_SHA256,
        TLS_ECDHE_RSA_WITH_AES_256_GCM_SHA384,
        TLS_ECDHE_RSA_WITH_AES_128_GCM_SHA256,
        TLS_ECDHE_RSA_WITH_CHACHA20_POLY1305_SHA256,
        TLS_ECDHE_ECDSA_WITH_AES_256_CBC_SHA,
        TLS_ECDHE_ECDSA_WITH_AES_128_CBC_SHA,
        TLS_ECDHE_RSA_WITH_AES_256_CBC_SHA,
        TLS_ECDHE_RSA_WITH_AES_128_CBC_SHA,
        TLS_RSA_WITH_AES_256_GCM_SHA384,
        TLS_RSA_WITH_AES_128_GCM_SHA256,
        TLS_RSA_WITH_AES_256_CBC_SHA,
        TLS_RSA_WITH_AES_128_CBC_SHA,
        TLS_ECDHE_ECDSA_WITH_3DES_EDE_CBC_SHA,
        TLS_ECDHE_RSA_WITH_3DES_EDE_CBC_SHA,
        TLS_RSA_WITH_3DES_EDE_CBC_SHA,
    ]
}

/// Safari's cipher suites, 3DES suites included.
pub fn safari_cipher_suites() -> (r: Vec<u16>)
    ensures
        r@ == spec_safari_cipher_suites(),
{
    let r = vec![
        TLS13_AES_128_GCM_SHA256,
        TLS13_AES_256_GCM_SHA384,
        TLS13_CHACHA20_POLY1305_SHA256,
        TLS_ECDHE_ECDSA_WITH_AES_256_GCM_SHA384,
        TLS_ECDHE_ECDSA_WITH_AES_128_GCM_SHA256,
        TLS_ECDHE_ECDSA_WITH_CHACHA20_POLY1305_SHA256,
        TLS_ECDHE_RSA_WITH_AES_256_GCM_SHA384,
        TLS_ECDHE_RSA_WITH_AES_128_GCM_SHA256,
        TLS_ECDHE_RSA_WITH_CHACHA20_POLY1305_SHA256,
        TLS_ECDHE_ECDSA_WITH_AES_256_CBC_SHA,
        TLS_ECDHE_ECDSA_WITH_AES_128_CBC_SHA,
        TLS_ECDHE_RSA_WITH_AES_256_CBC_SHA,
        TLS_ECDHE_RSA_WITH_AES_128_CBC_SHA,
        TLS_RSA_WITH_AES_256_GCM_SHA384,
        TLS_RSA_WITH_AES_128_GCM_SHA256,
        TLS_RSA_WITH_AES_256_CBC_SHA,
        TLS_RSA_WITH_AES_128_CBC_SHA,
        TLS_ECDHE_ECDSA_WITH_3DES_EDE_CBC_SHA,
        TLS_ECDHE_RSA_WITH_3DES_EDE_CBC_SHA,
        TLS_RSA_WITH_3DES_EDE_CBC_SHA,
    ];
    assert(r@ =~= spec_safari_cipher_suites());
    r
}

/// Firefox's cipher suites: the RSA suites, the TLS 1.3 suites, then the ECDHE suites.
pub open spec fn spec_firefox_cipher_suites() -> Seq<u16> {
    seq![
        TLS_RSA_WITH_AES_128_CBC_SHA,
        TLS_RSA_WITH_AES_256_CBC_SHA,
        TLS_RSA_WITH_AES_128_GCM_SHA256,
        TLS_RSA_WITH_AES_256_GCM_SHA384,
        TLS13_AES_128_GCM_SHA256,
        TLS13_AES_256_GCM_SHA384,
        TLS13_CHACHA20_POLY1305_SHA256,
        TLS_ECDHE_ECDSA_WITH_AES_128_CBC_SHA,
        TLS_ECDHE_ECDSA_WITH_AES_256_CBC_SHA,
        TLS_ECDHE_RSA_WITH_AES_128_CBC_SHA,
        TLS_ECDHE_RSA_WITH_AES_256_CBC_SHA,
        TLS_ECDHE_ECDSA_WITH_AES_128_GCM_SHA256,
        TLS_ECDHE_ECDSA_WITH_AES_256_GCM_SHA384,
        TLS_ECDHE_RSA_WITH_AES_128_GCM_SHA256,
        TLS_ECDHE_RSA_WITH_AES_256_GCM_SHA384,
        TLS_ECDHE_RSA_WITH_CHACHA20_POLY1305_SHA256,
        TLS_ECDHE_ECDSA_WITH_CHACHA20_POLY1305_SHA256,
    ]
}

/// Firefox's cipher suites: the RSA suites, the TLS 1.3 suites, then the ECDHE suites.
pub fn firefox_cipher_suites() -> (r: Vec<u16>)
    ensures
        r@ == spec_firefox_cipher_suites(),
{
    let r = vec![
        TLS_RSA_WITH_AES_128_CBC_SHA,
        TLS_RSA_WITH_AES_256_CBC_SHA,
        TLS_RSA_WITH_AES_128_GCM_SHA256,
        TLS_RSA_WITH_AES_256_GCM_SHA384,
        TLS13_AES_128_GCM_SHA256,
        TLS13_AES_256_GCM_SHA384,
        TLS13_CHACHA20_POLY1305_SHA256,
        TLS_ECDHE_ECDSA_WITH_AES_128_CBC_SHA,
        TLS_ECDHE_ECDSA_WITH_AES_256_CBC_SHA,
        TLS_ECDHE_RSA_WITH_AES_128_CBC_SHA,
        TLS_ECDHE_RSA_WITH_AES_256_CBC_SHA,
        TLS_ECDHE_ECDSA_WITH_AES_128_GCM_SHA256,
        TLS_ECDHE_ECDSA_WITH_AES_256_GCM_SHA384,
        TLS_ECDHE_RSA_WITH_AES_128_GCM_SHA256,
        TLS_ECDHE_RSA_WITH_AES_256_GCM_SHA384,
        TLS_ECDHE_RSA_WITH_CHACHA20_POLY1305_SHA256,
        TLS_ECDHE_ECDSA_WITH_CHACHA20_POLY1305_SHA256,
    ];
    assert(r@ =~= spec_firefox_cipher_suites());
    r
}

/// Chrome's signature algorithms.
pub open spec fn spec_chrome_signature_algorithms() -> Seq<u16> {
    seq![
        ECDSA_NISTP256_SHA256,
        RSA_PSS_SHA256,
        RSA_PKCS1_SHA256,
        ECDSA_NISTP384_SHA384,
        RSA_PSS_SHA384,
        RSA_PKCS1_SHA384,
        RSA_PSS_SHA512,
        RSA_PKCS1_SHA512,
    ]
}

/// Chrome's signature algorithms.
pub fn chrome_signature_algorithms() -> (r: Vec<u16>)
    ensures
        r@ == spec_chrome_signature_algorithms(),
{
    let r = vec![
        ECDSA_NISTP256_SHA256,
        RSA_PSS_SHA256,
        RSA_PKCS1_SHA256,
        ECDSA_NISTP384_SHA384,
        RSA_PSS_SHA384,
        RSA_PKCS1_SHA384,
        RSA_PSS_SHA512,
        RSA_PKCS1_SHA512,
    ];
    assert(r@ =~= spec_chrome_signature_algorithms());
    r
}

/// Safari's signature algorithms, with RSA-PSS-SHA384 twice and SHA-1 last.
pub open spec fn spec_safari_signature_algorithms() -> Seq<u16> {
    seq![
        ECDSA_NISTP256_SHA256,
        RSA_PSS_SHA256,
        RSA_PKCS1_SHA256,
        ECDSA_NISTP384_SHA384,
        RSA_PSS_SHA384,
        RSA_PSS_SHA384,
        RSA_PKCS1_SHA384,
        RSA_PSS_SHA512,
        RSA_PKCS1_SHA512,
        RSA_PKCS1_SHA1,
    ]
}

/// Safari's signature algorithms, with RSA-PSS-SHA384 twice and SHA-1 last.
pub fn safari_signature_algorithms() -> (r: Vec<u16>)
    ensures
        r@ == spec_safari_signature_algorithms(),
{
    let r = vec![
        ECDSA_NISTP256_SHA256,
        RSA_PSS_SHA256,
        RSA_PKCS1_SHA256,
        ECDSA_NISTP384_SHA384,
        RSA_PSS_SHA384,
        RSA_PSS_SHA384,
        RSA_PKCS1_SHA384,
        RSA_PSS_SHA512,
        RSA_PKCS1_SHA512,
        RSA_PKCS1_SHA1,
    ];
    assert(r@ =~= spec_safari_signature_algorithms());
    r
}

/// Firefox's signature algorithms.
pub open spec fn spec_firefox_signature_algorithms() -> Seq<u16> {
    seq![
        ECDSA_NISTP256_SHA256,
        ECDSA_NISTP384_SHA384,
        ECDSA_NISTP521_SHA512,
        RSA_PSS_SHA256,
        RSA_PSS_SHA384,
        RSA_PSS_SHA512,
        RSA_PKCS1_SHA256,
        RSA_PKCS1_SHA384,
        RSA_PKCS1_SHA512,
        ECDSA_SHA1_LEGACY,
        RSA_PKCS1_SHA1,
    ]
}

/// Firefox's signature algorithms.
pub fn firefox_signature_algorithms() -> (r: Vec<u16>)
    ensures
        r@ == spec_firefox_signature_algorithms(),
{
    let r = vec![
        ECDSA_NISTP256_SHA256,
        ECDSA_NISTP384_SHA384,
        ECDSA_NISTP521_SHA512,
        RSA_PSS_SHA256,
        RSA_PSS_SHA384,
        RSA_PSS_SHA512,
        RSA_PKCS1_SHA256,
        RSA_PKCS1_SHA384,
        RSA_PKCS1_SHA512,
        ECDSA_SHA1_LEGACY,
        RSA_PKCS1_SHA1,
    ];
    assert(r@ =~= spec_firefox_signature_algorithms());
    r
}

/// Chrome's named groups: a GREASE value, the post-quantum hybrid, then the classic curves.
pub open spec fn spec_chrome_named_groups() -> Seq<u16> {
    seq![
        GREASE_GROUP,
        X25519MLKEM768,
        X25519,
        SECP256R1,
        SECP384R1,
    ]
}

/// Chrome's named groups: a GREASE value, the post-quantum hybrid, then the classic curves.
pub fn chrome_named_groups() -> (r: Vec<u16>)
    ensures
        r@ == spec_chrome_named_groups(),
{
    let r = vec![
        GREASE_GROUP,
        X25519MLKEM768,
        X25519,
        SECP256R1,
        SECP384R1,
    ];
    assert(r@ =~= spec_chrome_named_groups());
    r
}

/// Safari's named groups.
pub open spec fn spec_safari_named_groups() -> Seq<u16> {
    seq![
        X25519MLKEM768,
        X25519,
        SECP256R1,
        SECP384R1,
    ]
}

/// Safari's named groups.
pub fn safari_named_groups() -> (r: Vec<u16>)
    ensures
        r@ == spec_safari_named_groups(),
{
    let r = vec![
        X25519MLKEM768,
        X25519,
        SECP256R1,
        SECP384R1,
    ];
    assert(r@ =~= spec_safari_named_groups());
    r
}

/// Firefox's named groups.
pub open spec fn spec_firefox_named_groups() -> Seq<u16> {
    seq![
        X25519MLKEM768,
        X25519,
        SECP256R1,
        SECP384R1,
    ]
}

/// Firefox's named groups.
pub fn firefox_named_groups() -> (r: Vec<u16>)
    ensures
        r@ == spec_firefox_named_groups(),
{
    let r = vec![
        X25519MLKEM768,
        X25519,
        SECP256R1,
        SECP384R1,
    ];
    assert(r@ =~= spec_firefox_named_groups());
    r
}

/// The seed that orders Chrome's ClientHello extensions.
pub const CHROME_EXTENSION_SEED: u16 = 0x8daa;

/// Edge orders its extensions as Chrome does.
pub const EDGE_EXTENSION_SEED: u16 = CHROME_EXTENSION_SEED;

/// The seed that orders Opera's extensions.
pub const OPERA_EXTENSION_SEED: u16 = 0x0271;

/// The seed that orders Firefox's extensions.
pub const FIREFOX_EXTENSION_SEED: u16 = 0x9abc;

/// The seed that orders Safari's extensions.
pub const SAFARI_EXTENSION_SEED: u16 = 0x6560;

/// The seed that orders Safari 18.5's extensions.
pub const SAFARI_18_5_EXTENSION_SEED: u16 = 0x9a7c;

/// The seed that orders Safari 26's extensions.
pub const SAFARI_26_EXTENSION_SEED: u16 = 0x6560;

/// The TLS parameters of one browser: ordered cipher suites, signature
/// algorithms and named groups, and the extension order seed.
#[derive(Debug)]
pub struct EmulationProfile {
    pub cipher_suites: Vec<u16>,
    pub signature_algorithms: Vec<u16>,
    pub named_groups: Vec<u16>,
    pub extension_order_seed: u16,
}

/// The parts of an emulation profile, as plain sequences.
pub struct ProfileTables {
    pub cipher_suites: Seq<u16>,
    pub signature_algorithms: Seq<u16>,
    pub named_groups: Seq<u16>,
    pub extension_order_seed: u16,
}

impl View for EmulationProfile {
    type V = ProfileTables;

    open spec fn view(&self) -> ProfileTables {
        ProfileTables {
            cipher_suites: self.cipher_suites@,
            signature_algorithms: self.signature_algorithms@,
            named_groups: self.named_groups@,
            extension_order_seed: self.extension_order_seed,
        }
    }
}

/// Chrome's tables with the given seed; the Chromium family shares them.
pub open spec fn chromium_tables(seed: u16) -> ProfileTables {
    ProfileTables {
        cipher_suites: spec_chrome_cipher_suites(),
        signature_algorithms: spec_chrome_signature_algorithms(),
        named_groups: spec_chrome_named_groups(),
        extension_order_seed: seed,
    }
}

/// Safari's tables with the given seed.
pub open spec fn safari_tables(seed: u16) -> ProfileTables {
    ProfileTables {
        cipher_suites: spec_safari_cipher_suites(),
        signature_algorithms: spec_safari_signature_algorithms(),
        named_groups: spec_safari_named_groups(),
        extension_order_seed: seed,
    }
}

/// Firefox's tables.
pub open spec fn firefox_tables() -> ProfileTables {
    ProfileTables {
        cipher_suites: spec_firefox_cipher_suites(),
        signature_algorithms: spec_firefox_signature_algorithms(),
        named_groups: spec_firefox_named_groups(),
        extension_order_seed: FIREFOX_EXTENSION_SEED,
    }
}

impl EmulationProfile {
    /// Chrome's profile.
    pub fn chrome() -> (r: Self)
        ensures
            r@ == chromium_tables(CHROME_EXTENSION_SEED),
    {
        EmulationProfile {
            cipher_suites: chrome_cipher_suites(),
            signature_algorithms: chrome_signature_algorithms(),
            named_groups: chrome_named_groups(),
            extension_order_seed: CHROME_EXTENSION_SEED,
        }
    }

    /// Edge's profile: Chrome's lists.
    pub fn edge() -> (r: Self)
        ensures
            r@ == chromium_tables(EDGE_EXTENSION_SEED),
    {
        EmulationProfile {
            cipher_suites: chrome_cipher_suites(),
            signature_algorithms: chrome_signature_algorithms(),
            named_groups: chrome_named_groups(),
            extension_order_seed: EDGE_EXTENSION_SEED,
        }
    }

    /// Safari's profile.
    pub fn safari() -> (r: Self)
        ensures
            r@ == safari_tables(SAFARI_EXTENSION_SEED),
    {
        EmulationProfile {
            cipher_suites: safari_cipher_suites(),
            signature_algorithms: safari_signature_algorithms(),
            named_groups: safari_named_groups(),
            extension_order_seed: SAFARI_EXTENSION_SEED,
        }
    }

    /// Firefox's profile.
    pub fn firefox() -> (r: Self)
        ensures
            r@ == firefox_tables(),
    {
        EmulationProfile {
            cipher_suites: firefox_cipher_suites(),
            signature_algorithms: firefox_signature_algorithms(),
            named_groups: firefox_named_groups(),
            extension_order_seed: FIREFOX_EXTENSION_SEED,
        }
    }

    /// Safari 18.5's profile.
    pub fn safari_v18_5() -> (r: Self)
        ensures
            r@ == safari_tables(SAFARI_18_5_EXTENSION_SEED),
    {
        EmulationProfile {
            cipher_suites: safari_cipher_suites(),
            signature_algorithms: safari_signature_algorithms(),
            named_groups: safari_named_groups(),
            extension_order_seed: SAFARI_18_5_EXTENSION_SEED,
        }
    }

    /// Safari 26's profile.
    pub fn safari_v26() -> (r: Self)
        ensures
            r@ == safari_tables(SAFARI_26_EXTENSION_SEED),
    {
        EmulationProfile {
            cipher_suites: safari_cipher_suites(),
            signature_algorithms: safari_signature_algorithms(),
            named_groups: safari_named_groups(),
            extension_order_seed: SAFARI_26_EXTENSION_SEED,
        }
    }
}

impl Clone for EmulationProfile {
    fn clone(&self) -> (r: Self)
        ensures
            r@ == self@,
    {
        EmulationProfile {
            cipher_suites: copy_codes(&self.cipher_suites),
            signature_algorithms: copy_codes(&self.signature_algorithms),
            named_groups: copy_codes(&self.named_groups),
            extension_order_seed: self.extension_order_seed,
        }
    }
}

/// A copy of a list of codes.
pub fn copy_codes(v: &Vec<u16>) -> (r: Vec<u16>)
    ensures
        r@ == v@,
{
    let mut r: Vec<u16> = Vec::new();
    let mut i: usize = 0;
    while i < v.len()
        invariant
            i <= v@.len(),
            r@ == v@.take(i as int),
        decreases v@.len() - i,
    {
        r.push(v[i]);
        i += 1;
        assert(r@ =~= v@.take(i as int));
    }
    assert(r@ =~= v@);
    r
}

} // verus!
