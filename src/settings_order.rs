//! The identifiers of HTTP/2 settings and the order in which a SETTINGS frame
//! carries them.
use vstd::prelude::*;
use crate::small_vec::{IdVec, id_items, ids_new, ids_push, ids_len, ids_get, ids_clone};

verus! {

/// The largest identifier value that has a bit in the duplicate mask.
pub const MAX_ID: u16 = 15;

/// The number of defined settings.
pub const SETTING_COUNT: usize = 8;

/// The settings that a SETTINGS frame can carry, by their wire identifiers.
#[derive(Debug, PartialEq, Eq, Structural, PartialOrd, Ord, Hash, Clone, Copy)]
pub enum SettingId {
    /// Size of the header compression table (0x1).
    HeaderTableSize,
    /// Whether server push is allowed (0x2).
    EnablePush,
    /// The maximum number of concurrent streams (0x3).
    MaxConcurrentStreams,
    /// The initial stream-level flow control window (0x4).
    InitialWindowSize,
    /// The largest acceptable frame payload (0x5).
    MaxFrameSize,
    /// The largest acceptable header field section (0x6).
    MaxHeaderListSize,
    /// Support for the Extended CONNECT protocol (0x8).
    EnableConnectProtocol,
    /// The sender does not use RFC 7540 priorities (0x9).
    NoRfc7540Priorities,
}

impl SettingId {
    /// The identifier's 16-bit value on the wire.
    pub open spec fn spec_value(self) -> u16 {
        match self {
            SettingId::HeaderTableSize => 1,
            SettingId::EnablePush => 2,
            SettingId::MaxConcurrentStreams => 3,
            SettingId::InitialWindowSize => 4,
            SettingId::MaxFrameSize => 5,
            SettingId::MaxHeaderListSize => 6,
            SettingId::EnableConnectProtocol => 8,
            SettingId::NoRfc7540Priorities => 9,
        }
    }

    /// The identifier's position in the canonical order.
    pub open spec fn spec_index(self) -> int {
        match self {
            SettingId::HeaderTableSize => 0,
            SettingId::EnablePush => 1,
            SettingId::MaxConcurrentStreams => 2,
            SettingId::InitialWindowSize => 3,
            SettingId::MaxFrameSize => 4,
            SettingId::MaxHeaderListSize => 5,
            SettingId::EnableConnectProtocol => 6,
            SettingId::NoRfc7540Priorities => 7,
        }
    }

    /// The identifier with a given wire value, if any.
    pub open spec fn spec_from_value(v: u16) -> Option<SettingId> {
        if v == 1 {
            Some(SettingId::HeaderTableSize)
        } else if v == 2 {
            Some(SettingId::EnablePush)
        } else if v == 3 {
            Some(SettingId::MaxConcurrentStreams)
        } else if v == 4 {
            Some(SettingId::InitialWindowSize)
        } else if v == 5 {
            Some(SettingId::MaxFrameSize)
        } else if v == 6 {
            Some(SettingId::MaxHeaderListSize)
        } else if v == 8 {
            Some(SettingId::EnableConnectProtocol)
        } else if v == 9 {
            Some(SettingId::NoRfc7540Priorities)
        } else {
            None
        }
    }

    /// The bit that stands for the identifier in a duplicate mask: bit
    /// `value - 1` for values 1 to 15, none otherwise.
    pub open spec fn spec_mask(self) -> u16 {
        let v = self.spec_value();
        if v == 0 || v > MAX_ID {
            0
        } else {
            1u16 << ((v - 1) as u16)
        }
    }

    /// The identifier's 16-bit value on the wire.
    pub fn value(self) -> (r: u16)
        ensures
            r == self.spec_value(),
    {
        match self {
            SettingId::HeaderTableSize => 1,
            SettingId::EnablePush => 2,
            SettingId::MaxConcurrentStreams => 3,
            SettingId::InitialWindowSize => 4,
            SettingId::MaxFrameSize => 5,
            SettingId::MaxHeaderListSize => 6,
            SettingId::EnableConnectProtocol => 8,
            SettingId::NoRfc7540Priorities => 9,
        }
    }

    /// The identifier with wire value `v`, or `None` for an unknown value.
    pub fn from_value(v: u16) -> (r: Option<SettingId>)
        ensures
            r == SettingId::spec_from_value(v),
    {
        match v {
            1 => Some(SettingId::HeaderTableSize),
            2 => Some(SettingId::EnablePush),
            3 => Some(SettingId::MaxConcurrentStreams),
            4 => Some(SettingId::InitialWindowSize),
            5 => Some(SettingId::MaxFrameSize),
            6 => Some(SettingId::MaxHeaderListSize),
            8 => Some(SettingId::EnableConnectProtocol),
            9 => Some(SettingId::NoRfc7540Priorities),
            _ => None,
        }
    }

    /// The identifier's bit in a duplicate mask.
    pub fn mask_id(self) -> (r: u16)
        ensures
            r == self.spec_mask(),
    {
        let value = self.value();
        if value == 0 || value > MAX_ID {
            return 0;
        }
        1u16 << (value - 1)
    }

    /// All identifiers, in canonical order.
    pub fn default_ids() -> (r: Vec<SettingId>)
        ensures
            r@ == canonical_ids(),
    {
        vec![
            SettingId::HeaderTableSize,
            SettingId::EnablePush,
            SettingId::MaxConcurrentStreams,
            SettingId::InitialWindowSize,
            SettingId::MaxFrameSize,
            SettingId::MaxHeaderListSize,
            SettingId::EnableConnectProtocol,
            SettingId::NoRfc7540Priorities,
        ]
    }
}

/// All identifiers, in canonical order (by wire value).
pub open spec fn canonical_ids() -> Seq<SettingId> {
    seq![
        SettingId::HeaderTableSize,
        SettingId::EnablePush,
        SettingId::MaxConcurrentStreams,
        SettingId::InitialWindowSize,
        SettingId::MaxFrameSize,
        SettingId::MaxHeaderListSize,
        SettingId::EnableConnectProtocol,
        SettingId::NoRfc7540Priorities,
    ]
}

/// The identifier at a position of the canonical order.
pub open spec fn id_at(i: int) -> SettingId {
    canonical_ids()[i]
}

/// Whether `w` is the wire value of a defined setting.
pub open spec fn is_setting_value(w: u16) -> bool {
    SettingId::spec_from_value(w) is Some
}

/// The identifier that a stored wire value stands for.
pub open spec fn id_of(w: u16) -> SettingId {
    SettingId::spec_from_value(w).unwrap()
}

/// The identifiers that a vector of wire values stands for.
pub open spec fn ids_of(ws: Seq<u16>) -> Seq<SettingId> {
    ws.map_values(|w: u16| id_of(w))
}

/// Appends `id` unless it is already present.
pub open spec fn push_unique(s: Seq<SettingId>, id: SettingId) -> Seq<SettingId> {
    if s.contains(id) {
        s
    } else {
        s.push(id)
    }
}

/// Pushes each of `ids` in order, skipping those already present.
pub open spec fn extend_unique(s: Seq<SettingId>, ids: Seq<SettingId>) -> Seq<SettingId>
    decreases ids.len(),
{
    if ids.len() == 0 {
        s
    } else {
        push_unique(extend_unique(s, ids.drop_last()), ids.last())
    }
}

/// Each setting's mask is a single bit, and distinct settings have distinct
/// bits, so a mask of seen settings never confuses two of them.
pub proof fn lemma_mask_unique(a: SettingId, b: SettingId)
    ensures
        a.spec_mask() != 0,
        a != b ==> a.spec_mask() & b.spec_mask() == 0,
        a.spec_mask() & a.spec_mask() == a.spec_mask(),
{
    let x = (a.spec_value() - 1) as u16;
    let y = (b.spec_value() - 1) as u16;
    assert(x < 15 && y < 15);
    assert(a != b ==> x != y);
    assert(x < 15 ==> (1u16 << x) != 0) by (bit_vector);
    assert(x < 15 && y < 15 && x != y ==> (1u16 << x) & (1u16 << y) == 0) by (bit_vector);
    assert((1u16 << x) & (1u16 << x) == (1u16 << x)) by (bit_vector);
}

proof fn lemma_mask_set(mask: u16, a: SettingId, b: SettingId)
    ensures
        ((mask | a.spec_mask()) & b.spec_mask() != 0) == (a == b || mask & b.spec_mask() != 0),
{
    lemma_mask_unique(a, b);
    lemma_mask_unique(b, a);
    let ma = a.spec_mask();
    let mb = b.spec_mask();
    assert(ma & mb == 0 && mb != 0 ==> (((mask | ma) & mb != 0) == (mask & mb != 0))) by (bit_vector);
    assert(ma == mb && mb != 0 ==> ((mask | ma) & mb != 0)) by (bit_vector);
}

proof fn lemma_id_value_inverse(id: SettingId)
    ensures
        SettingId::spec_from_value(id.spec_value()) == Some(id),
        is_setting_value(id.spec_value()),
        id_of(id.spec_value()) == id,
{
}

proof fn lemma_value_id_inverse(w: u16)
    requires
        is_setting_value(w),
    ensures
        id_of(w).spec_value() == w,
{
}

/// Distinct wire values of defined settings stand for distinct settings, so
/// membership carries over between a vector of values and its identifiers.
proof fn lemma_ids_contains(ws: Seq<u16>, id: SettingId)
    requires
        forall|i: int| 0 <= i < ws.len() ==> is_setting_value(#[trigger] ws[i]),
    ensures
        ids_of(ws).contains(id) == ws.contains(id.spec_value()),
{
    if ids_of(ws).contains(id) {
        let i = choose|i: int| 0 <= i < ids_of(ws).len() && ids_of(ws)[i] == id;
        lemma_value_id_inverse(ws[i]);
        assert(ws[i] == id.spec_value());
    }
    if ws.contains(id.spec_value()) {
        let i = choose|i: int| 0 <= i < ws.len() && ws[i] == id.spec_value();
        lemma_id_value_inverse(id);
        assert(ids_of(ws)[i] == id);
    }
}

/// The order of settings in a SETTINGS frame: each identifier at most once.
#[derive(Debug, PartialEq, Eq)]
pub struct SettingsOrder {
    ids: IdVec,
}

impl SettingsOrder {
    /// The stored values are defined settings, each at most once.
    #[verifier::type_invariant]
    spec fn inv(self) -> bool {
        &&& forall|i: int| 0 <= i < id_items(self.ids).len() ==> is_setting_value(#[trigger] id_items(self.ids)[i])
        &&& id_items(self.ids).no_duplicates()
        &&& id_items(self.ids).len() <= SETTING_COUNT
    }

    /// Starts an empty builder.
    pub fn builder() -> (r: SettingsOrderBuilder)
        ensures
            r@ == Seq::<SettingId>::empty(),
    {
        let ids = ids_new();
        let mask: u16 = 0;
        proof {
            assert(ids_of(id_items(ids)) =~= Seq::<SettingId>::empty());
            assert forall|id: SettingId| (mask & #[trigger] id.spec_mask() != 0) == id_items(ids).contains(id.spec_value()) by {
                let m = id.spec_mask();
                assert(0u16 & m == 0) by (bit_vector);
            }
        }
        SettingsOrderBuilder { ids, mask }
    }

    /// The number of identifiers.
    pub fn len(&self) -> (r: usize)
        ensures
            r == self@.len(),
            r <= SETTING_COUNT,
            self@.no_duplicates(),
    {
        proof {
            use_type_invariant(self);
            let ws = id_items(self.ids);
            assert forall|i: int, j: int| 0 <= i < self@.len() && 0 <= j < self@.len() && i != j implies self@[i] != self@[j] by {
                lemma_value_id_inverse(ws[i]);
                lemma_value_id_inverse(ws[j]);
            }
        }
        ids_len(&self.ids)
    }

    /// The identifier at position `i`.
    pub fn get(&self, i: usize) -> (r: SettingId)
        requires
            i < self@.len(),
        ensures
            r == self@[i as int],
    {
        proof {
            use_type_invariant(self);
        }
        let w = ids_get(&self.ids, i);
        let r = SettingId::from_value(w);
        proof {
            assert(is_setting_value(id_items(self.ids)[i as int]));
        }
        r.unwrap()
    }

    /// The identifiers as a vector, in order.
    pub fn to_vec(&self) -> (r: Vec<SettingId>)
        ensures
            r@ == self@,
    {
        let n = self.len();
        let mut r: Vec<SettingId> = Vec::new();
        let mut i: usize = 0;
        while i < n
            invariant
                n == self@.len(),
                i <= n,
                r@ == self@.take(i as int),
            decreases n - i,
        {
            r.push(self.get(i));
            i += 1;
            assert(r@ =~= self@.take(i as int));
        }
        assert(r@ =~= self@);
        r
    }
}

impl View for SettingsOrder {
    type V = Seq<SettingId>;

    /// The identifiers in order.
    closed spec fn view(&self) -> Seq<SettingId> {
        ids_of(id_items(self.ids))
    }
}

impl View for SettingsOrderBuilder {
    type V = Seq<SettingId>;

    /// The identifiers pushed so far, in order.
    closed spec fn view(&self) -> Seq<SettingId> {
        ids_of(id_items(self.ids))
    }
}

impl Clone for SettingsOrder {
    fn clone(&self) -> (r: SettingsOrder)
        ensures
            r@ == self@,
    {
        proof {
            use_type_invariant(self);
        }
        SettingsOrder { ids: ids_clone(&self.ids) }
    }
}

impl Default for SettingsOrder {
    /// Every identifier, in canonical order.
    fn default() -> (r: SettingsOrder)
        ensures
            r@ == canonical_ids(),
    {
        proof {
            lemma_extend_distinct(Seq::<SettingId>::empty(), canonical_ids());
            assert(Seq::<SettingId>::empty() + canonical_ids() =~= canonical_ids());
        }
        SettingsOrder::builder().extend(SettingId::default_ids()).build_without_extend()
    }
}

/// Builds a `SettingsOrder` one identifier at a time, keeping only the first
/// occurrence of each.
#[derive(Debug)]
pub struct SettingsOrderBuilder {
    ids: IdVec,
    mask: u16,
}

impl SettingsOrderBuilder {
    /// The stored values are defined settings, each at most once, and the
    /// mask has exactly the bits of the stored settings.
    #[verifier::type_invariant]
    spec fn inv(self) -> bool {
        &&& forall|i: int| 0 <= i < id_items(self.ids).len() ==> is_setting_value(#[trigger] id_items(self.ids)[i])
        &&& id_items(self.ids).no_duplicates()
        &&& id_items(self.ids).len() <= SETTING_COUNT
        &&& forall|id: SettingId| (self.mask & #[trigger] id.spec_mask() != 0) == id_items(self.ids).contains(id.spec_value())
    }

    /// Appends `id` unless it was pushed before.
    pub fn push(self, id: SettingId) -> (r: Self)
        ensures
            r@ == push_unique(self@, id),
    {
        proof {
            use_type_invariant(&self);
            lemma_ids_contains(id_items(self.ids), id);
        }
        let SettingsOrderBuilder { ids, mask } = self;
        let mut ids = ids;
        let mut mask = mask;
        let mask_id = id.mask_id();
        if mask_id != 0 {
            if mask & mask_id == 0 {
                let ghost old_ws = id_items(ids);
                let ghost old_mask = mask;
                proof {
                    if old_ws.len() >= SETTING_COUNT {
                        lemma_full_holds_all(old_ws);
                        assert(old_ws.contains(id.spec_value()));
                    }
                }
                mask = mask | mask_id;
                ids_push(&mut ids, id.value());
                proof {
                    let ws = id_items(ids);
                    assert(ws == old_ws.push(id.spec_value()));
                    lemma_id_value_inverse(id);
                    assert forall|i: int| 0 <= i < ws.len() implies is_setting_value(#[trigger] ws[i]) by {
                        if i < old_ws.len() {
                            assert(ws[i] == old_ws[i]);
                        }
                    }
                    assert(!old_ws.contains(id.spec_value()));
                    assert(ws.no_duplicates()) by {
                        assert forall|i: int, j: int| 0 <= i < ws.len() && 0 <= j < ws.len() && i != j implies ws[i] != ws[j] by {
                            if i < old_ws.len() && j < old_ws.len() {
                                assert(ws[i] == old_ws[i] && ws[j] == old_ws[j]);
                            } else if i < old_ws.len() {
                                assert(ws[i] == old_ws[i]);
                            } else if j < old_ws.len() {
                                assert(ws[j] == old_ws[j]);
                            }
                        }
                    }
                    assert forall|b: SettingId| (mask & #[trigger] b.spec_mask() != 0) == ws.contains(b.spec_value()) by {
                        lemma_mask_set(old_mask, id, b);
                        lemma_ids_contains(old_ws, b);
                        lemma_id_value_inverse(b);
                        if b == id {
                            assert(ws[old_ws.len() as int] == b.spec_value());
                        } else {
                            if ws.contains(b.spec_value()) {
                                let k = choose|k: int| 0 <= k < ws.len() && ws[k] == b.spec_value();
                                if k < old_ws.len() {
                                    assert(old_ws[k] == b.spec_value());
                                } else {
                                    lemma_value_id_inverse(ws[k]);
                                }
                            }
                            if old_ws.contains(b.spec_value()) {
                                let k = choose|k: int| 0 <= k < old_ws.len() && old_ws[k] == b.spec_value();
                                assert(ws[k] == b.spec_value());
                            }
                        }
                    }
                    assert(ids_of(ws) =~= ids_of(old_ws).push(id));
                }
            } else {
                proof {
                    lemma_mask_unique(id, id);
                }
            }
        } else {
            proof {
                lemma_mask_unique(id, id);
            }
        }
        SettingsOrderBuilder { ids, mask }
    }

    /// Pushes each identifier of `iter` in order.
    pub fn extend(self, iter: Vec<SettingId>) -> (r: Self)
        ensures
            r@ == extend_unique(self@, iter@),
    {
        let mut this = self;
        let mut i: usize = 0;
        while i < iter.len()
            invariant
                i <= iter@.len(),
                this@ == extend_unique(self@, iter@.take(i as int)),
            decreases iter@.len() - i,
        {
            let ghost before = this@;
            this = this.push(iter[i]);
            proof {
                let t = iter@.take(i as int + 1);
                assert(t.drop_last() =~= iter@.take(i as int));
                assert(t.last() == iter@[i as int]);
            }
            i += 1;
        }
        assert(iter@.take(iter@.len() as int) =~= iter@);
        this
    }

    /// Finishes the order, appending every identifier not yet pushed in
    /// canonical order, so that the frame is complete.
    pub fn build(self) -> (r: SettingsOrder)
        ensures
            r@ == extend_unique(self@, canonical_ids()),
    {
        let full = self.extend(SettingId::default_ids());
        full.build_without_extend()
    }

    /// Finishes the order with exactly the identifiers pushed.
    pub fn build_without_extend(self) -> (r: SettingsOrder)
        ensures
            r@ == self@,
    {
        proof {
            use_type_invariant(&self);
        }
        SettingsOrder { ids: self.ids }
    }
}

/// Pushing identifiers that are distinct and not yet present appends them all.
pub proof fn lemma_extend_distinct(s: Seq<SettingId>, ids: Seq<SettingId>)
    requires
        (s + ids).no_duplicates(),
    ensures
        extend_unique(s, ids) == s + ids,
    decreases ids.len(),
{
    if ids.len() > 0 {
        let init = ids.drop_last();
        assert((s + init).no_duplicates()) by {
            assert forall|i: int, j: int| 0 <= i < (s + init).len() && 0 <= j < (s + init).len() && i != j
                implies (s + init)[i] != (s + init)[j] by {
                assert((s + init)[i] == (s + ids)[i] && (s + init)[j] == (s + ids)[j]);
            }
        }
        lemma_extend_distinct(s, init);
        let n = (s + ids).len() - 1;
        assert(!(s + init).contains(ids.last())) by {
            if (s + init).contains(ids.last()) {
                let k = choose|k: int| 0 <= k < (s + init).len() && (s + init)[k] == ids.last();
                assert((s + ids)[k] == (s + ids)[n]);
            }
        }
        assert((s + init).push(ids.last()) =~= s + ids);
    } else {
        assert(s + ids =~= s);
    }
}

/// Pushing an identifier twice leaves one entry for it, where the first push
/// put it: a second push changes nothing.
pub proof fn lemma_push_twice(s: Seq<SettingId>, id: SettingId)
    ensures
        push_unique(push_unique(s, id), id) == push_unique(s, id),
        push_unique(s, id).contains(id),
        !s.contains(id) ==> push_unique(s, id)[s.len() as int] == id,
        s.no_duplicates() ==> push_unique(s, id).no_duplicates(),
        s.contains(id) ==> push_unique(s, id) == s,
{
    let t = push_unique(s, id);
    if !s.contains(id) {
        assert(t[s.len() as int] == id);
        assert(t.contains(id));
        if s.no_duplicates() {
            assert forall|i: int, j: int| 0 <= i < t.len() && 0 <= j < t.len() && i != j implies t[i] != t[j] by {
                if i < s.len() && j < s.len() {
                    assert(t[i] == s[i] && t[j] == s[j]);
                } else if i < s.len() {
                    assert(t[i] == s[i]);
                } else if j < s.len() {
                    assert(t[j] == s[j]);
                }
            }
        }
    }
}

/// Extending keeps what was there as a prefix, adds each given identifier,
/// and never repeats one.
pub proof fn lemma_extend_keeps(s: Seq<SettingId>, ids: Seq<SettingId>)
    requires
        s.no_duplicates(),
    ensures
        extend_unique(s, ids).no_duplicates(),
        extend_unique(s, ids).len() >= s.len(),
        extend_unique(s, ids).take(s.len() as int) == s,
        forall|id: SettingId| ids.contains(id) ==> extend_unique(s, ids).contains(id),
        forall|id: SettingId| extend_unique(s, ids).contains(id) ==> s.contains(id) || ids.contains(id),
    decreases ids.len(),
{
    if ids.len() == 0 {
        assert(s.take(s.len() as int) =~= s);
    } else {
        let init = ids.drop_last();
        lemma_extend_keeps(s, init);
        let e = extend_unique(s, init);
        lemma_push_twice(e, ids.last());
        let r = push_unique(e, ids.last());
        assert(r.take(s.len() as int) =~= e.take(s.len() as int));
        assert forall|id: SettingId| ids.contains(id) implies r.contains(id) by {
            let k = choose|k: int| 0 <= k < ids.len() && ids[k] == id;
            if k < ids.len() - 1 {
                assert(init[k] == id);
                assert(init.contains(id));
                let m = choose|m: int| 0 <= m < e.len() && e[m] == id;
                if !e.contains(ids.last()) {
                    assert(r[m] == id);
                }
            }
        }
        assert forall|id: SettingId| r.contains(id) implies s.contains(id) || ids.contains(id) by {
            let k = choose|k: int| 0 <= k < r.len() && r[k] == id;
            if e.contains(ids.last()) || k < e.len() {
                assert(e[k] == id);
                if init.contains(id) {
                    let m = choose|m: int| 0 <= m < init.len() && init[m] == id;
                    assert(ids[m] == id);
                }
            } else {
                assert(ids[ids.len() - 1] == id);
            }
        }
    }
}

/// A built order holds every defined setting exactly once, with the pushed
/// ones first and in push order.
pub proof fn lemma_build_complete(s: Seq<SettingId>)
    requires
        s.no_duplicates(),
    ensures
        extend_unique(s, canonical_ids()).no_duplicates(),
        forall|id: SettingId| extend_unique(s, canonical_ids()).contains(id),
        extend_unique(s, canonical_ids()).take(s.len() as int) == s,
{
    lemma_extend_keeps(s, canonical_ids());
    assert forall|id: SettingId| extend_unique(s, canonical_ids()).contains(id) by {
        assert(canonical_ids()[id.spec_index()] == id);
        assert(canonical_ids().contains(id));
    }
}

/// A vector of eight distinct defined values holds every defined value.
proof fn lemma_full_holds_all(ws: Seq<u16>)
    requires
        forall|i: int| 0 <= i < ws.len() ==> is_setting_value(#[trigger] ws[i]),
        ws.no_duplicates(),
        ws.len() >= SETTING_COUNT,
    ensures
        forall|id: SettingId| ws.contains(#[trigger] id.spec_value()),
{
    let all = set![1u16, 2u16, 3u16, 4u16, 5u16, 6u16, 8u16, 9u16];
    assert(all.len() == 8) by {
        assert(all =~= set![1u16, 2u16, 3u16, 4u16, 5u16, 6u16, 8u16].insert(9u16));
    }
    let s = ws.to_set();
    ws.unique_seq_to_set();
    assert(s.subset_of(all)) by {
        assert forall|w: u16| s.contains(w) implies all.contains(w) by {
            let i = choose|i: int| 0 <= i < ws.len() && ws[i] == w;
            assert(is_setting_value(ws[i]));
        }
    }
    vstd::set_lib::lemma_len_subset(s, all);
    assert forall|id: SettingId| ws.contains(#[trigger] id.spec_value()) by {
        let w = id.spec_value();
        if !s.contains(w) {
            assert(s.subset_of(all.remove(w)));
            vstd::set_lib::lemma_len_subset(s, all.remove(w));
        }
    }
}

} // verus!
