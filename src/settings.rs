//! The SETTINGS frame: its values, their encoding in a configured order, and
//! the checks applied when one is received.
use vstd::prelude::*;
use bytes::BytesMut;
use crate::buf::{buf_bytes, be16, be32, put_u16, put_u32};
use crate::frame::{Head, Kind, StreamId, Error, head_bytes, be16_value, be32_value, read_u16, read_u32};
use crate::settings_order::{SettingId, SettingsOrder, canonical_ids, id_at, SETTING_COUNT};

verus! {

/// The ACK flag of a SETTINGS frame.
pub const ACK: u8 = 0x1;

/// Every flag that a SETTINGS frame defines.
pub const ALL: u8 = ACK;

/// The default value of SETTINGS_HEADER_TABLE_SIZE.
pub const DEFAULT_SETTINGS_HEADER_TABLE_SIZE: usize = 4_096;

/// The default value of SETTINGS_INITIAL_WINDOW_SIZE.
pub const DEFAULT_INITIAL_WINDOW_SIZE: u32 = 65_535;

/// The default value of SETTINGS_MAX_FRAME_SIZE, and its lower bound.
pub const DEFAULT_MAX_FRAME_SIZE: u32 = 16_384;

/// The upper bound of SETTINGS_INITIAL_WINDOW_SIZE.
pub const MAX_INITIAL_WINDOW_SIZE: u32 = 0x7fff_ffff;

/// The upper bound of SETTINGS_MAX_FRAME_SIZE.
pub const MAX_MAX_FRAME_SIZE: u32 = 0xff_ffff;

/// One setting with its value, as a SETTINGS frame carries it.
#[derive(Debug, Clone, Copy, PartialEq, Eq, Structural)]
pub enum Setting {
    HeaderTableSize(u32),
    EnablePush(u32),
    MaxConcurrentStreams(u32),
    InitialWindowSize(u32),
    MaxFrameSize(u32),
    MaxHeaderListSize(u32),
    EnableConnectProtocol(u32),
    NoRfc7540Priorities(u32),
}

impl Setting {
    /// The setting that `id` names, with value `v`.
    pub open spec fn of(id: SettingId, v: u32) -> Setting {
        match id {
            SettingId::HeaderTableSize => Setting::HeaderTableSize(v),
            SettingId::EnablePush => Setting::EnablePush(v),
            SettingId::MaxConcurrentStreams => Setting::MaxConcurrentStreams(v),
            SettingId::InitialWindowSize => Setting::InitialWindowSize(v),
            SettingId::MaxFrameSize => Setting::MaxFrameSize(v),
            SettingId::MaxHeaderListSize => Setting::MaxHeaderListSize(v),
            SettingId::EnableConnectProtocol => Setting::EnableConnectProtocol(v),
            SettingId::NoRfc7540Priorities => Setting::NoRfc7540Priorities(v),
        }
    }

    pub open spec fn spec_id(self) -> SettingId {
        match self {
            Setting::HeaderTableSize(_) => SettingId::HeaderTableSize,
            Setting::EnablePush(_) => SettingId::EnablePush,
            Setting::MaxConcurrentStreams(_) => SettingId::MaxConcurrentStreams,
            Setting::InitialWindowSize(_) => SettingId::InitialWindowSize,
            Setting::MaxFrameSize(_) => SettingId::MaxFrameSize,
            Setting::MaxHeaderListSize(_) => SettingId::MaxHeaderListSize,
            Setting::EnableConnectProtocol(_) => SettingId::EnableConnectProtocol,
            Setting::NoRfc7540Priorities(_) => SettingId::NoRfc7540Priorities,
        }
    }

    pub open spec fn spec_val(self) -> u32 {
        match self {
            Setting::HeaderTableSize(v) => v,
            Setting::EnablePush(v) => v,
            Setting::MaxConcurrentStreams(v) => v,
            Setting::InitialWindowSize(v) => v,
            Setting::MaxFrameSize(v) => v,
            Setting::MaxHeaderListSize(v) => v,
            Setting::EnableConnectProtocol(v) => v,
            Setting::NoRfc7540Priorities(v) => v,
        }
    }

    /// The six bytes of the setting on the wire: identifier, then value.
    pub open spec fn spec_bytes(self) -> Seq<u8> {
        be16(self.spec_id().spec_value()) + be32(self.spec_val())
    }

    /// The setting with wire identifier `id`, or `None` for an unknown one.
    pub open spec fn spec_from_id(id: u16, val: u32) -> Option<Setting> {
        match SettingId::spec_from_value(id) {
            Some(sid) => Some(Setting::of(sid, val)),
            None => None,
        }
    }

    /// Whether the value lies in the range that the protocol allows.
    pub open spec fn value_ok(self) -> bool {
        match self {
            Setting::EnablePush(v) => v <= 1,
            Setting::InitialWindowSize(v) => v <= MAX_INITIAL_WINDOW_SIZE,
            Setting::MaxFrameSize(v) => DEFAULT_MAX_FRAME_SIZE <= v && v <= MAX_MAX_FRAME_SIZE,
            Setting::EnableConnectProtocol(v) => v <= 1,
            _ => true,
        }
    }

    /// The setting's wire identifier.
    pub fn id(&self) -> (r: u16)
        ensures
            r == self.spec_id().spec_value(),
    {
        match *self {
            Setting::HeaderTableSize(_) => 1,
            Setting::EnablePush(_) => 2,
            Setting::MaxConcurrentStreams(_) => 3,
            Setting::InitialWindowSize(_) => 4,
            Setting::MaxFrameSize(_) => 5,
            Setting::MaxHeaderListSize(_) => 6,
            Setting::EnableConnectProtocol(_) => 8,
            Setting::NoRfc7540Priorities(_) => 9,
        }
    }

    /// The setting's value.
    pub fn value(&self) -> (r: u32)
        ensures
            r == self.spec_val(),
    {
        match *self {
            Setting::HeaderTableSize(v) => v,
            Setting::EnablePush(v) => v,
            Setting::MaxConcurrentStreams(v) => v,
            Setting::InitialWindowSize(v) => v,
            Setting::MaxFrameSize(v) => v,
            Setting::MaxHeaderListSize(v) => v,
            Setting::EnableConnectProtocol(v) => v,
            Setting::NoRfc7540Priorities(v) => v,
        }
    }

    /// The setting with wire identifier `id` and value `val`; `None` for an
    /// identifier that no setting has.
    pub fn from_id(id: u16, val: u32) -> (r: Option<Setting>)
        ensures
            r == Setting::spec_from_id(id, val),
    {
        match id {
            1 => Some(Setting::HeaderTableSize(val)),
            2 => Some(Setting::EnablePush(val)),
            3 => Some(Setting::MaxConcurrentStreams(val)),
            4 => Some(Setting::InitialWindowSize(val)),
            5 => Some(Setting::MaxFrameSize(val)),
            6 => Some(Setting::MaxHeaderListSize(val)),
            8 => Some(Setting::EnableConnectProtocol(val)),
            9 => Some(Setting::NoRfc7540Priorities(val)),
            _ => None,
        }
    }

    /// Reads a setting from its six raw bytes.
    pub fn load(raw: &[u8]) -> (r: Option<Setting>)
        requires
            raw@.len() >= 6,
        ensures
            r == Setting::spec_from_id(be16_value(raw@.subrange(0, 2)), be32_value(raw@.subrange(2, 6))),
    {
        let id = read_u16(raw, 0);
        let val = read_u32(raw, 2);
        Setting::from_id(id, val)
    }

    /// Appends the setting's six bytes to `dst`.
    pub fn encode(&self, dst: &mut BytesMut)
        requires
            buf_bytes(*old(dst)).len() + 6 <= usize::MAX,
        ensures
            buf_bytes(*final(dst)) == buf_bytes(*old(dst)) + self.spec_bytes(),
    {
        let ghost start = buf_bytes(*dst);
        put_u16(dst, self.id());
        put_u32(dst, self.value());
        assert(buf_bytes(*dst) =~= start + self.spec_bytes());
    }
}

/// The flags of a SETTINGS frame.
#[derive(Copy, Clone, PartialEq, Eq, Structural, Debug)]
pub struct SettingsFlags(u8);

impl SettingsFlags {
    pub closed spec fn spec_bits(self) -> u8 {
        self.0
    }

    pub open spec fn spec_is_ack(self) -> bool {
        self.spec_bits() & ACK == ACK
    }

    /// No flag set.
    pub fn empty() -> (r: SettingsFlags)
        ensures
            r.spec_bits() == 0,
            !r.spec_is_ack(),
    {
        assert(0u8 & 1u8 != 1u8) by (bit_vector);
        SettingsFlags(0)
    }

    /// The defined flags among `bits`.
    pub fn load(bits: u8) -> (r: SettingsFlags)
        ensures
            r.spec_bits() == bits & ALL,
            r.spec_is_ack() == (bits & ACK == ACK),
    {
        assert((bits & 1u8) & 1u8 == bits & 1u8) by (bit_vector);
        SettingsFlags(bits & ALL)
    }

    /// The ACK flag alone.
    pub fn ack() -> (r: SettingsFlags)
        ensures
            r.spec_bits() == ACK,
            r.spec_is_ack(),
    {
        assert(1u8 & 1u8 == 1u8) by (bit_vector);
        SettingsFlags(ACK)
    }

    pub fn is_ack(&self) -> (r: bool)
        ensures
            r == self.spec_is_ack(),
    {
        self.0 & ACK == ACK
    }

    /// The flag byte of the frame head.
    pub fn bits(&self) -> (r: u8)
        ensures
            r == self.spec_bits(),
    {
        self.0
    }
}

/// No setting has a value.
pub open spec fn no_values() -> Seq<Option<u32>> {
    Seq::new(SETTING_COUNT as nat, |i: int| None::<u32>)
}

/// The settings that have a value, in the order given.
pub open spec fn present_settings(vals: Seq<Option<u32>>, order: Seq<SettingId>) -> Seq<Setting>
    decreases order.len(),
{
    if order.len() == 0 {
        Seq::empty()
    } else {
        let id = order.last();
        let init = present_settings(vals, order.drop_last());
        match vals[id.spec_index()] {
            Some(v) => init.push(Setting::of(id, v)),
            None => init,
        }
    }
}

/// The bytes of a sequence of settings, six for each.
pub open spec fn settings_bytes(s: Seq<Setting>) -> Seq<u8>
    decreases s.len(),
{
    if s.len() == 0 {
        Seq::empty()
    } else {
        settings_bytes(s.drop_last()) + s.last().spec_bytes()
    }
}

/// The setting in the `k`-th six-byte field of `p`, if its identifier is known.
pub open spec fn field_setting(p: Seq<u8>, k: int) -> Option<Setting> {
    Setting::spec_from_id(
        be16_value(p.subrange(6 * k, 6 * k + 2)),
        be32_value(p.subrange(6 * k + 2, 6 * k + 6)),
    )
}

/// The values after reading the first `n` fields of a payload; `None` once a
/// field holds a value out of range. Unknown identifiers are skipped, and a
/// later field wins over an earlier one for the same setting.
pub open spec fn decode_values(p: Seq<u8>, n: nat) -> Option<Seq<Option<u32>>>
    decreases n,
{
    if n == 0 {
        Some(no_values())
    } else {
        match decode_values(p, (n - 1) as nat) {
            None => None,
            Some(vals) => match field_setting(p, n - 1) {
                None => Some(vals),
                Some(s) => if s.value_ok() {
                    Some(vals.update(s.spec_id().spec_index(), Some(s.spec_val())))
                } else {
                    None
                },
            },
        }
    }
}

/// What decoding a SETTINGS frame with this head and payload gives: whether it
/// is an acknowledgement and the values, by canonical position; or the error.
pub open spec fn load_spec(head: Head, p: Seq<u8>) -> Result<(bool, Seq<Option<u32>>), Error> {
    if head.stream_id.0 != 0 {
        Err(Error::InvalidStreamId)
    } else if head.flag & ACK == ACK {
        if p.len() != 0 {
            Err(Error::InvalidPayloadLength)
        } else {
            Ok((true, no_values()))
        }
    } else if p.len() % 6 != 0 {
        Err(Error::InvalidPayloadAckSettings)
    } else {
        match decode_values(p, p.len() / 6) {
            None => Err(Error::InvalidSettingValue),
            Some(vals) => Ok((false, vals)),
        }
    }
}

/// The values of a SETTINGS frame, with the order in which they are encoded.
#[derive(Debug)]
pub struct Settings {
    flags: SettingsFlags,
    header_table_size: Option<u32>,
    enable_push: Option<u32>,
    max_concurrent_streams: Option<u32>,
    initial_window_size: Option<u32>,
    max_frame_size: Option<u32>,
    max_header_list_size: Option<u32>,
    enable_connect_protocol: Option<u32>,
    no_rfc7540_priorities: Option<u32>,
    settings_order: SettingsOrder,
}

impl Settings {
    /// Each setting's value, by the setting's canonical position.
    pub closed spec fn values(&self) -> Seq<Option<u32>> {
        seq![
            self.header_table_size,
            self.enable_push,
            self.max_concurrent_streams,
            self.initial_window_size,
            self.max_frame_size,
            self.max_header_list_size,
            self.enable_connect_protocol,
            self.no_rfc7540_priorities,
        ]
    }

    /// The value of setting `id`.
    pub open spec fn value_of(&self, id: SettingId) -> Option<u32> {
        self.values()[id.spec_index()]
    }

    /// The order in which the values are encoded.
    pub closed spec fn order(&self) -> Seq<SettingId> {
        self.settings_order@
    }

    pub closed spec fn spec_flags(&self) -> SettingsFlags {
        self.flags
    }

    pub open spec fn spec_is_ack(&self) -> bool {
        self.spec_flags().spec_is_ack()
    }

    /// The settings that an encoding carries, in order.
    pub open spec fn present(&self) -> Seq<Setting> {
        present_settings(self.values(), self.order())
    }

    /// The head of the frame that carries these settings.
    pub open spec fn spec_head(&self) -> Head {
        Head { kind: Kind::Settings, flag: self.spec_flags().spec_bits(), stream_id: StreamId(0) }
    }

    /// An acknowledgement: the ACK flag and no values.
    pub fn ack() -> (r: Settings)
        ensures
            r.spec_is_ack(),
            r.spec_flags().spec_bits() == ACK,
            r.values() == no_values(),
            r.order() == canonical_ids(),
    {
        let mut s = Settings::default();
        s.flags = SettingsFlags::ack();
        proof {
            assert(s.values() =~= no_values());
        }
        s
    }

    pub fn is_ack(&self) -> (r: bool)
        ensures
            r == self.spec_is_ack(),
    {
        self.flags.is_ack()
    }

    pub fn initial_window_size(&self) -> (r: Option<u32>)
        ensures
            r == self.value_of(SettingId::InitialWindowSize),
    {
        self.initial_window_size
    }

    pub fn set_initial_window_size(&mut self, size: Option<u32>)
        ensures
            final(self).values() == old(self).values().update(SettingId::InitialWindowSize.spec_index(), size),
            final(self).order() == old(self).order(),
            final(self).spec_flags() == old(self).spec_flags(),
    {
        self.initial_window_size = size;
        proof {
            assert(final(self).values() =~= old(self).values().update(3, size));
        }
    }

    pub fn max_concurrent_streams(&self) -> (r: Option<u32>)
        ensures
            r == self.value_of(SettingId::MaxConcurrentStreams),
    {
        self.max_concurrent_streams
    }

    pub fn set_max_concurrent_streams(&mut self, max: Option<u32>)
        ensures
            final(self).values() == old(self).values().update(SettingId::MaxConcurrentStreams.spec_index(), max),
            final(self).order() == old(self).order(),
            final(self).spec_flags() == old(self).spec_flags(),
    {
        self.max_concurrent_streams = max;
        proof {
            assert(final(self).values() =~= old(self).values().update(2, max));
        }
    }

    pub fn max_frame_size(&self) -> (r: Option<u32>)
        ensures
            r == self.value_of(SettingId::MaxFrameSize),
    {
        self.max_frame_size
    }

    /// Sets the largest frame payload; a value must lie within the protocol's
    /// bounds.
    pub fn set_max_frame_size(&mut self, size: Option<u32>)
        requires
            size matches Some(v) ==> DEFAULT_MAX_FRAME_SIZE <= v && v <= MAX_MAX_FRAME_SIZE,
        ensures
            final(self).values() == old(self).values().update(SettingId::MaxFrameSize.spec_index(), size),
            final(self).order() == old(self).order(),
            final(self).spec_flags() == old(self).spec_flags(),
    {
        self.max_frame_size = size;
        proof {
            assert(final(self).values() =~= old(self).values().update(4, size));
        }
    }

    pub fn max_header_list_size(&self) -> (r: Option<u32>)
        ensures
            r == self.value_of(SettingId::MaxHeaderListSize),
    {
        self.max_header_list_size
    }

    pub fn set_max_header_list_size(&mut self, size: Option<u32>)
        ensures
            final(self).values() == old(self).values().update(SettingId::MaxHeaderListSize.spec_index(), size),
            final(self).order() == old(self).order(),
            final(self).spec_flags() == old(self).spec_flags(),
    {
        self.max_header_list_size = size;
        proof {
            assert(final(self).values() =~= old(self).values().update(5, size));
        }
    }

    /// Whether server push is enabled, if the setting has a value.
    pub fn is_push_enabled(&self) -> (r: Option<bool>)
        ensures
            r == (match self.value_of(SettingId::EnablePush) {
                Some(v) => Some(v != 0),
                None => None,
            }),
    {
        match self.enable_push {
            Some(v) => Some(v != 0),
            None => None,
        }
    }

    pub fn set_enable_push(&mut self, enable: bool)
        ensures
            final(self).values() == old(self).values().update(
                SettingId::EnablePush.spec_index(),
                Some(if enable { 1u32 } else { 0u32 }),
            ),
            final(self).order() == old(self).order(),
            final(self).spec_flags() == old(self).spec_flags(),
    {
        self.enable_push = Some(if enable { 1 } else { 0 });
        proof {
            assert(final(self).values() =~= old(self).values().update(1, Some(if enable { 1u32 } else { 0u32 })));
        }
    }

    /// Whether the Extended CONNECT protocol is enabled, if the setting has a
    /// value.
    pub fn is_extended_connect_protocol_enabled(&self) -> (r: Option<bool>)
        ensures
            r == (match self.value_of(SettingId::EnableConnectProtocol) {
                Some(v) => Some(v != 0),
                None => None,
            }),
    {
        match self.enable_connect_protocol {
            Some(v) => Some(v != 0),
            None => None,
        }
    }

    pub fn set_enable_connect_protocol(&mut self, val: Option<u32>)
        ensures
            final(self).values() == old(self).values().update(SettingId::EnableConnectProtocol.spec_index(), val),
            final(self).order() == old(self).order(),
            final(self).spec_flags() == old(self).spec_flags(),
    {
        self.enable_connect_protocol = val;
        proof {
            assert(final(self).values() =~= old(self).values().update(6, val));
        }
    }

    pub fn no_rfc7540_priorities(&self) -> (r: Option<u32>)
        ensures
            r == self.value_of(SettingId::NoRfc7540Priorities),
    {
        self.no_rfc7540_priorities
    }

    pub fn set_no_rfc7540_priorities(&mut self, val: Option<u32>)
        ensures
            final(self).values() == old(self).values().update(SettingId::NoRfc7540Priorities.spec_index(), val),
            final(self).order() == old(self).order(),
            final(self).spec_flags() == old(self).spec_flags(),
    {
        self.no_rfc7540_priorities = val;
        proof {
            assert(final(self).values() =~= old(self).values().update(7, val));
        }
    }

    pub fn header_table_size(&self) -> (r: Option<u32>)
        ensures
            r == self.value_of(SettingId::HeaderTableSize),
    {
        self.header_table_size
    }

    pub fn set_header_table_size(&mut self, size: Option<u32>)
        ensures
            final(self).values() == old(self).values().update(SettingId::HeaderTableSize.spec_index(), size),
            final(self).order() == old(self).order(),
            final(self).spec_flags() == old(self).spec_flags(),
    {
        self.header_table_size = size;
        proof {
            assert(final(self).values() =~= old(self).values().update(0, size));
        }
    }

    /// The order in which the values are encoded.
    pub fn settings_order(&self) -> (r: &SettingsOrder)
        ensures
            r@ == self.order(),
    {
        &self.settings_order
    }

    pub fn set_settings_order(&mut self, settings_order: SettingsOrder)
        ensures
            final(self).order() == settings_order@,
            final(self).values() == old(self).values(),
            final(self).spec_flags() == old(self).spec_flags(),
    {
        self.settings_order = settings_order;
    }

    /// The value of setting `id`.
    pub fn get(&self, id: SettingId) -> (r: Option<u32>)
        ensures
            r == self.value_of(id),
    {
        match id {
            SettingId::HeaderTableSize => self.header_table_size,
            SettingId::EnablePush => self.enable_push,
            SettingId::MaxConcurrentStreams => self.max_concurrent_streams,
            SettingId::InitialWindowSize => self.initial_window_size,
            SettingId::MaxFrameSize => self.max_frame_size,
            SettingId::MaxHeaderListSize => self.max_header_list_size,
            SettingId::EnableConnectProtocol => self.enable_connect_protocol,
            SettingId::NoRfc7540Priorities => self.no_rfc7540_priorities,
        }
    }

    /// Stores a decoded setting in its field.
    fn store(&mut self, s: Setting)
        ensures
            final(self).values() == old(self).values().update(s.spec_id().spec_index(), Some(s.spec_val())),
            final(self).order() == old(self).order(),
            final(self).spec_flags() == old(self).spec_flags(),
    {
        match s {
            Setting::HeaderTableSize(v) => self.header_table_size = Some(v),
            Setting::EnablePush(v) => self.enable_push = Some(v),
            Setting::MaxConcurrentStreams(v) => self.max_concurrent_streams = Some(v),
            Setting::InitialWindowSize(v) => self.initial_window_size = Some(v),
            Setting::MaxFrameSize(v) => self.max_frame_size = Some(v),
            Setting::MaxHeaderListSize(v) => self.max_header_list_size = Some(v),
            Setting::EnableConnectProtocol(v) => self.enable_connect_protocol = Some(v),
            Setting::NoRfc7540Priorities(v) => self.no_rfc7540_priorities = Some(v),
        }
        proof {
            assert(final(self).values() =~= old(self).values().update(s.spec_id().spec_index(), Some(s.spec_val())));
        }
    }

    /// The settings that have a value, in the configured order: what an
    /// encoding carries.
    pub fn present_list(&self) -> (r: Vec<Setting>)
        ensures
            r@ == self.present(),
            r@.len() <= self.order().len(),
            r@.len() <= SETTING_COUNT,
    {
        let n = self.settings_order.len();
        let mut r: Vec<Setting> = Vec::new();
        let mut i: usize = 0;
        while i < n
            invariant
                n == self.order().len(),
                i <= n,
                r@ == present_settings(self.values(), self.order().take(i as int)),
                r@.len() <= i,
            decreases n - i,
        {
            let id = self.settings_order.get(i);
            let ghost before = self.order().take(i as int);
            proof {
                assert(self.order().take(i as int + 1).drop_last() =~= before);
                assert(self.order().take(i as int + 1).last() == id);
            }
            match self.get(id) {
                Some(v) => {
                    let s = match id {
                        SettingId::HeaderTableSize => Setting::HeaderTableSize(v),
                        SettingId::EnablePush => Setting::EnablePush(v),
                        SettingId::MaxConcurrentStreams => Setting::MaxConcurrentStreams(v),
                        SettingId::InitialWindowSize => Setting::InitialWindowSize(v),
                        SettingId::MaxFrameSize => Setting::MaxFrameSize(v),
                        SettingId::MaxHeaderListSize => Setting::MaxHeaderListSize(v),
                        SettingId::EnableConnectProtocol => Setting::EnableConnectProtocol(v),
                        SettingId::NoRfc7540Priorities => Setting::NoRfc7540Priorities(v),
                    };
                    r.push(s);
                },
                None => {},
            }
            i += 1;
        }
        assert(self.order().take(n as int) =~= self.order());
        r
    }

    /// The length of the encoded payload: six bytes for each setting present.
    fn payload_len(&self) -> (r: usize)
        ensures
            r == 6 * self.present().len(),
            r <= 6 * SETTING_COUNT,
    {
        let list = self.present_list();
        6 * list.len()
    }

    /// Appends the frame to `dst`: the head, then each setting that has a value,
    /// in the configured order. Settings without a value are left out.
    pub fn encode(&self, dst: &mut BytesMut)
        requires
            buf_bytes(*old(dst)).len() + 9 + 6 * SETTING_COUNT <= usize::MAX,
        ensures
            buf_bytes(*final(dst)) == buf_bytes(*old(dst))
                + head_bytes(self.spec_head(), 6 * self.present().len())
                + settings_bytes(self.present()),
    {
        let list = self.present_list();
        let payload_len = self.payload_len();
        let head = Head::new(Kind::Settings, self.flags.bits(), StreamId::zero());
        let ghost start = buf_bytes(*dst);
        head.encode(payload_len, dst);
        let ghost with_head = buf_bytes(*dst);
        let mut i: usize = 0;
        while i < list.len()
            invariant
                i <= list@.len(),
                list@.len() <= SETTING_COUNT,
                with_head.len() == start.len() + 9,
                start.len() + 9 + 6 * SETTING_COUNT <= usize::MAX,
                buf_bytes(*dst) == with_head + settings_bytes(list@.take(i as int)),
            decreases list@.len() - i,
        {
            proof {
                lemma_settings_bytes_len(list@.take(i as int));
            }
            list[i].encode(dst);
            proof {
                let t = list@.take(i as int + 1);
                assert(t.drop_last() =~= list@.take(i as int));
                assert(t.last() == list@[i as int]);
                assert(buf_bytes(*dst) =~= with_head + settings_bytes(t));
            }
            i += 1;
        }
        assert(list@.take(list@.len() as int) =~= list@);
        assert(buf_bytes(*dst) =~= start + head_bytes(self.spec_head(), 6 * self.present().len()) + settings_bytes(self.present()));
    }

    /// Decodes a received SETTINGS frame. The frame must be on stream 0; an
    /// acknowledgement must be empty; otherwise the payload is a run of
    /// six-byte fields, unknown identifiers are skipped, and a value outside
    /// its protocol range rejects the frame.
    pub fn load(head: Head, payload: &[u8]) -> (r: Result<Settings, Error>)
        ensures
            match r {
                Ok(s) => load_spec(head, payload@) == Ok::<(bool, Seq<Option<u32>>), Error>((s.spec_is_ack(), s.values()))
                    && s.order() == canonical_ids(),
                Err(e) => load_spec(head, payload@) == Err::<(bool, Seq<Option<u32>>), Error>(e),
            },
    {
        if !head.stream_id().is_zero() {
            return Err(Error::InvalidStreamId);
        }
        let flag = SettingsFlags::load(head.flag());
        if flag.is_ack() {
            if payload.len() != 0 {
                return Err(Error::InvalidPayloadLength);
            }
            return Ok(Settings::ack());
        }
        if payload.len() % 6 != 0 {
            return Err(Error::InvalidPayloadAckSettings);
        }
        let mut settings = Settings::default();
        let n = payload.len() / 6;
        let mut k: usize = 0;
        let mut at: usize = 0;
        while k < n
            invariant
                n == payload@.len() / 6,
                payload@.len() % 6 == 0,
                k <= n,
                at == 6 * k,
                payload@.len() <= usize::MAX,
                head.stream_id.0 == 0,
                head.flag & ACK != ACK,
                decode_values(payload@, k as nat) == Some(settings.values()),
                settings.order() == canonical_ids(),
                !settings.spec_is_ack(),
            decreases n - k,
        {
            assert(6 * k + 6 <= payload@.len()) by (nonlinear_arith)
                requires
                    k < n,
                    n == payload@.len() / 6,
            ;
            let id = read_u16(payload, at);
            let val = read_u32(payload, at + 2);
            let parsed = Setting::from_id(id, val);
            assert(parsed == field_setting(payload@, k as int));
            match parsed {
                Some(s) => {
                    let ok = match s {
                        Setting::EnablePush(v) => v <= 1,
                        Setting::InitialWindowSize(v) => v <= MAX_INITIAL_WINDOW_SIZE,
                        Setting::MaxFrameSize(v) => DEFAULT_MAX_FRAME_SIZE <= v && v <= MAX_MAX_FRAME_SIZE,
                        Setting::EnableConnectProtocol(v) => v <= 1,
                        _ => true,
                    };
                    assert(ok == s.value_ok());
                    if !ok {
                        proof {
                            assert(decode_values(payload@, (k + 1) as nat) is None);
                            lemma_decode_stops(payload@, (k + 1) as nat, n as nat);
                        }
                        return Err(Error::InvalidSettingValue);
                    }
                    settings.store(s);
                },
                None => {},
            }
            k += 1;
            at += 6;
        }
        Ok(settings)
    }
}

impl Default for Settings {
    /// No values, no flags, and the canonical order.
    fn default() -> (r: Settings)
        ensures
            r.values() == no_values(),
            r.order() == canonical_ids(),
            r.spec_flags().spec_bits() == 0,
            !r.spec_is_ack(),
    {
        let r = Settings {
            flags: SettingsFlags::empty(),
            header_table_size: None,
            enable_push: None,
            max_concurrent_streams: None,
            initial_window_size: None,
            max_frame_size: None,
            max_header_list_size: None,
            enable_connect_protocol: None,
            no_rfc7540_priorities: None,
            settings_order: SettingsOrder::default(),
        };
        assert(r.values() =~= no_values());
        r
    }
}

impl Clone for Settings {
    fn clone(&self) -> (r: Settings)
        ensures
            r.values() == self.values(),
            r.order() == self.order(),
            r.spec_flags() == self.spec_flags(),
    {
        Settings {
            flags: self.flags,
            header_table_size: self.header_table_size,
            enable_push: self.enable_push,
            max_concurrent_streams: self.max_concurrent_streams,
            initial_window_size: self.initial_window_size,
            max_frame_size: self.max_frame_size,
            max_header_list_size: self.max_header_list_size,
            enable_connect_protocol: self.enable_connect_protocol,
            no_rfc7540_priorities: self.no_rfc7540_priorities,
            settings_order: self.settings_order.clone(),
        }
    }
}

/// The values of `vals` whose settings appear in `o`; the others are absent.
pub open spec fn restrict(vals: Seq<Option<u32>>, o: Seq<SettingId>) -> Seq<Option<u32>> {
    Seq::new(SETTING_COUNT as nat, |i: int| if o.contains(id_at(i)) { vals[i] } else { None })
}

/// Every value present in `vals` lies in its protocol range.
pub open spec fn values_in_range(vals: Seq<Option<u32>>) -> bool {
    forall|i: int| 0 <= i < SETTING_COUNT && (#[trigger] vals[i]) is Some
        ==> Setting::of(id_at(i), vals[i].unwrap()).value_ok()
}

/// Every value present in `vals` belongs to a setting of `order`.
pub open spec fn values_in_order(vals: Seq<Option<u32>>, order: Seq<SettingId>) -> bool {
    forall|i: int| 0 <= i < SETTING_COUNT && (#[trigger] vals[i]) is Some ==> order.contains(id_at(i))
}

proof fn lemma_be_round_trip(x: u16, v: u32)
    ensures
        be16_value(be16(x)) == x,
        be32_value(be32(v)) == v,
{
    assert(((((x >> 8u16) as u8) as u16) << 8u16) | (((x & 0xff) as u8) as u16) == x) by (bit_vector);
    assert(((((v >> 24u32) as u8) as u32) << 24u32) | (((((v >> 16u32) & 0xff) as u8) as u32) << 16u32)
        | (((((v >> 8u32) & 0xff) as u8) as u32) << 8u32) | (((v & 0xff) as u8) as u32) == v) by (bit_vector);
}

/// The `k`-th field of an encoding holds the `k`-th setting.
proof fn lemma_field_of_bytes(s: Seq<Setting>, k: int)
    requires
        0 <= k < s.len(),
    ensures
        settings_bytes(s).subrange(6 * k, 6 * k + 2) == be16(s[k].spec_id().spec_value()),
        settings_bytes(s).subrange(6 * k + 2, 6 * k + 6) == be32(s[k].spec_val()),
    decreases s.len(),
{
    let init = s.drop_last();
    lemma_settings_bytes_len(init);
    let a = settings_bytes(init);
    let b = s.last().spec_bytes();
    if k < s.len() - 1 {
        lemma_field_of_bytes(init, k);
        assert((a + b).subrange(6 * k, 6 * k + 2) =~= a.subrange(6 * k, 6 * k + 2));
        assert((a + b).subrange(6 * k + 2, 6 * k + 6) =~= a.subrange(6 * k + 2, 6 * k + 6));
    } else {
        assert((a + b).subrange(6 * k, 6 * k + 2) =~= be16(s[k].spec_id().spec_value()));
        assert((a + b).subrange(6 * k + 2, 6 * k + 6) =~= be32(s[k].spec_val()));
    }
}

/// Decoding the first `n` fields reads only their bytes.
proof fn lemma_decode_prefix(p: Seq<u8>, q: Seq<u8>, n: nat)
    requires
        6 * n <= p.len(),
    ensures
        decode_values(p + q, n) == decode_values(p, n),
    decreases n,
{
    if n > 0 {
        lemma_decode_prefix(p, q, (n - 1) as nat);
        let k = n - 1;
        assert((p + q).subrange(6 * k, 6 * k + 2) =~= p.subrange(6 * k, 6 * k + 2));
        assert((p + q).subrange(6 * k + 2, 6 * k + 6) =~= p.subrange(6 * k + 2, 6 * k + 6));
    }
}

proof fn lemma_index_id(i: int)
    requires
        0 <= i < SETTING_COUNT,
    ensures
        id_at(i).spec_index() == i,
{
}

/// Decoding the encoding of the settings of `order` present in `vals` gives
/// those values back.
proof fn lemma_decode_encoded(vals: Seq<Option<u32>>, order: Seq<SettingId>)
    requires
        vals.len() == SETTING_COUNT,
        values_in_range(vals),
    ensures
        decode_values(settings_bytes(present_settings(vals, order)), present_settings(vals, order).len())
            == Some(restrict(vals, order)),
    decreases order.len(),
{
    if order.len() == 0 {
        assert(restrict(vals, order) =~= no_values());
    } else {
        let init = order.drop_last();
        let x = order.last();
        let s0 = present_settings(vals, init);
        lemma_decode_encoded(vals, init);
        lemma_settings_bytes_len(s0);
        let xi = x.spec_index();
        assert(id_at(xi) == x);
        match vals[xi] {
            Some(v) => {
                let st = Setting::of(x, v);
                let s1 = s0.push(st);
                assert(s1.drop_last() =~= s0);
                let p = settings_bytes(s1);
                assert(p == settings_bytes(s0) + st.spec_bytes());
                lemma_decode_prefix(settings_bytes(s0), st.spec_bytes(), s0.len());
                lemma_field_of_bytes(s1, s0.len() as int);
                lemma_be_round_trip(x.spec_value(), v);
                assert(field_setting(p, s0.len() as int) == Some(st));
                assert(Setting::of(id_at(xi), vals[xi].unwrap()).value_ok());
                assert(restrict(vals, init).update(xi, Some(v)) =~= restrict(vals, order)) by {
                    assert forall|i: int| 0 <= i < SETTING_COUNT implies
                        #[trigger] restrict(vals, order)[i] == restrict(vals, init).update(xi, Some(v))[i] by {
                        lemma_index_id(i);
                        if i != xi {
                            assert(order.contains(id_at(i)) == init.contains(id_at(i))) by {
                                if order.contains(id_at(i)) {
                                    let m = choose|m: int| 0 <= m < order.len() && order[m] == id_at(i);
                                    assert(m != order.len() - 1);
                                    assert(init[m] == id_at(i));
                                }
                                if init.contains(id_at(i)) {
                                    let m = choose|m: int| 0 <= m < init.len() && init[m] == id_at(i);
                                    assert(order[m] == id_at(i));
                                }
                            }
                        } else {
                            assert(order[order.len() - 1] == id_at(i));
                        }
                    }
                }
            },
            None => {
                assert(restrict(vals, init) =~= restrict(vals, order)) by {
                    assert forall|i: int| 0 <= i < SETTING_COUNT implies
                        #[trigger] restrict(vals, order)[i] == restrict(vals, init)[i] by {
                        lemma_index_id(i);
                        if i != xi {
                            if order.contains(id_at(i)) {
                                let m = choose|m: int| 0 <= m < order.len() && order[m] == id_at(i);
                                assert(m != order.len() - 1);
                                assert(init[m] == id_at(i));
                            }
                            if init.contains(id_at(i)) {
                                let m = choose|m: int| 0 <= m < init.len() && init[m] == id_at(i);
                                assert(order[m] == id_at(i));
                            }
                        }
                    }
                }
            },
        }
    }
}

/// Encoding settings and decoding the frame gives back the same values,
/// setting by setting, whatever the order of the encoding. This holds of
/// every value that the order carries and that lies in its protocol range,
/// and of an acknowledgement, which carries none.
pub proof fn lemma_round_trip(s: Settings)
    requires
        values_in_range(s.values()),
        values_in_order(s.values(), s.order()),
        s.spec_is_ack() ==> s.values() == no_values(),
    ensures
        load_spec(s.spec_head(), settings_bytes(s.present()))
            == Ok::<(bool, Seq<Option<u32>>), Error>((s.spec_is_ack(), s.values())),
{
    let vals = s.values();
    let order = s.order();
    lemma_decode_encoded(vals, order);
    lemma_settings_bytes_len(s.present());
    assert(restrict(vals, order) =~= vals) by {
        assert forall|i: int| 0 <= i < SETTING_COUNT implies #[trigger] restrict(vals, order)[i] == vals[i] by {
            if vals[i] is Some {
                assert(order.contains(id_at(i)));
            }
        }
    }
    let p = settings_bytes(s.present());
    assert(p.len() / 6 == s.present().len());
    if s.spec_is_ack() {
        assert(s.present().len() == 0) by {
            lemma_present_none(vals, order);
        }
    }
}

/// Without values, nothing is encoded.
proof fn lemma_present_none(vals: Seq<Option<u32>>, order: Seq<SettingId>)
    requires
        vals == no_values(),
    ensures
        present_settings(vals, order).len() == 0,
    decreases order.len(),
{
    if order.len() > 0 {
        lemma_present_none(vals, order.drop_last());
        lemma_index_id(order.last().spec_index());
    }
}

/// Once a field holds a value out of range, no longer prefix decodes.
proof fn lemma_decode_stops(p: Seq<u8>, k: nat, n: nat)
    requires
        k <= n,
        decode_values(p, k) is None,
    ensures
        decode_values(p, n) is None,
    decreases n - k,
{
    if k < n {
        lemma_decode_stops(p, k + 1, n);
    }
}

/// Six bytes for each setting.
pub proof fn lemma_settings_bytes_len(s: Seq<Setting>)
    ensures
        settings_bytes(s).len() == 6 * s.len(),
    decreases s.len(),
{
    if s.len() > 0 {
        lemma_settings_bytes_len(s.drop_last());
    }
}

} // verus!
