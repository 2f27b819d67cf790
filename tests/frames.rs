use bytes::BytesMut;
use primp::frame::{Error, Head, Kind, StreamId};
use primp::priority::{Priorities, Priority, StreamDependency};
use primp::pseudo::{PseudoId, PseudoOrder};
use primp::settings::{Setting, Settings, SettingsFlags};
use primp::settings_order::{SettingId, SettingsOrder};

fn settings_head(flag: u8, stream: u32) -> Head {
    Head::new(Kind::Settings, flag, StreamId(stream))
}

fn payload_of(buf: &BytesMut) -> Vec<u8> {
    buf[9..].to_vec()
}

#[test]
fn push_same_setting_twice_keeps_first_position() {
    let order = SettingsOrder::builder()
        .push(SettingId::InitialWindowSize)
        .push(SettingId::EnablePush)
        .push(SettingId::InitialWindowSize)
        .build_without_extend();
    assert_eq!(order.to_vec(), vec![SettingId::InitialWindowSize, SettingId::EnablePush]);
}

#[test]
fn build_appends_missing_settings_in_canonical_order() {
    let order = SettingsOrder::builder()
        .push(SettingId::MaxFrameSize)
        .push(SettingId::EnablePush)
        .build();
    assert_eq!(
        order.to_vec(),
        vec![
            SettingId::MaxFrameSize,
            SettingId::EnablePush,
            SettingId::HeaderTableSize,
            SettingId::MaxConcurrentStreams,
            SettingId::InitialWindowSize,
            SettingId::MaxHeaderListSize,
            SettingId::EnableConnectProtocol,
            SettingId::NoRfc7540Priorities,
        ]
    );
}

#[test]
fn build_of_complete_order_is_unchanged() {
    let order = SettingsOrder::builder().extend(SettingId::default_ids()).build();
    assert_eq!(order.to_vec(), SettingId::default_ids());
    assert_eq!(SettingsOrder::default().to_vec(), SettingId::default_ids());
}

#[test]
fn build_without_extend_keeps_only_pushed() {
    let order = SettingsOrder::builder()
        .extend(vec![SettingId::NoRfc7540Priorities, SettingId::HeaderTableSize, SettingId::NoRfc7540Priorities])
        .build_without_extend();
    assert_eq!(order.to_vec(), vec![SettingId::NoRfc7540Priorities, SettingId::HeaderTableSize]);
    assert_eq!(order.len(), 2);
}

#[test]
fn setting_id_values_and_masks() {
    let values: Vec<u16> = SettingId::default_ids().iter().map(|id| id.value()).collect();
    assert_eq!(values, vec![1, 2, 3, 4, 5, 6, 8, 9]);
    let masks: Vec<u16> = SettingId::default_ids().iter().map(|id| id.mask_id()).collect();
    assert_eq!(masks, vec![1, 2, 4, 8, 16, 32, 128, 256]);
    assert_eq!(SettingId::from_value(7), None);
    assert_eq!(SettingId::from_value(9), Some(SettingId::NoRfc7540Priorities));
}

#[test]
fn setting_from_id_and_raw() {
    assert_eq!(Setting::from_id(4, 65535), Some(Setting::InitialWindowSize(65535)));
    assert_eq!(Setting::from_id(7, 1), None);
    assert_eq!(Setting::load(&[0, 5, 0, 0, 0x40, 0]), Some(Setting::MaxFrameSize(16384)));
    assert_eq!(Setting::MaxHeaderListSize(1).id(), 6);
}

#[test]
fn encode_follows_order_and_skips_absent_values() {
    let mut s = Settings::default();
    s.set_initial_window_size(Some(6291456));
    s.set_header_table_size(Some(65536));
    s.set_enable_push(false);
    s.set_settings_order(
        SettingsOrder::builder()
            .push(SettingId::InitialWindowSize)
            .push(SettingId::MaxConcurrentStreams)
            .push(SettingId::HeaderTableSize)
            .push(SettingId::EnablePush)
            .build_without_extend(),
    );
    let mut buf = BytesMut::new();
    s.encode(&mut buf);
    assert_eq!(
        buf.to_vec(),
        vec![
            0, 0, 18, 4, 0, 0, 0, 0, 0, //
            0, 4, 0, 0x60, 0, 0, //
            0, 1, 0, 1, 0, 0, //
            0, 2, 0, 0, 0, 0,
        ]
    );
}

#[test]
fn encode_of_ack_is_an_empty_frame() {
    let mut buf = BytesMut::new();
    Settings::ack().encode(&mut buf);
    assert_eq!(buf.to_vec(), vec![0, 0, 0, 4, 1, 0, 0, 0, 0]);
}

#[test]
fn load_rejects_nonzero_stream() {
    assert_eq!(Settings::load(settings_head(0, 1), &[]).unwrap_err(), Error::InvalidStreamId);
}

#[test]
fn load_rejects_ack_with_payload() {
    assert_eq!(
        Settings::load(settings_head(1, 0), &[0, 1, 0, 0, 0, 1]).unwrap_err(),
        Error::InvalidPayloadLength
    );
    assert!(Settings::load(settings_head(1, 0), &[]).unwrap().is_ack());
}

#[test]
fn load_rejects_partial_field() {
    assert_eq!(
        Settings::load(settings_head(0, 0), &[0, 1, 0, 0, 0]).unwrap_err(),
        Error::InvalidPayloadAckSettings
    );
}

#[test]
fn load_rejects_out_of_range_values() {
    let cases: Vec<Vec<u8>> = vec![
        vec![0, 2, 0, 0, 0, 2],
        vec![0, 8, 0, 0, 0, 2],
        vec![0, 4, 0x80, 0, 0, 0],
        vec![0, 5, 0, 0, 0x3f, 0xff],
        vec![0, 5, 1, 0, 0, 0],
    ];
    for c in cases {
        assert_eq!(Settings::load(settings_head(0, 0), &c).unwrap_err(), Error::InvalidSettingValue);
    }
}

#[test]
fn load_skips_unknown_ids_and_keeps_last_value() {
    let payload = vec![0, 7, 0, 0, 0, 9, 0, 3, 0, 0, 0, 100, 0, 3, 0, 0, 0, 200];
    let s = Settings::load(settings_head(0, 0), &payload).unwrap();
    assert_eq!(s.max_concurrent_streams(), Some(200));
    assert_eq!(s.header_table_size(), None);
    assert!(!s.is_ack());
}

#[test]
fn round_trip_keeps_values() {
    let mut s = Settings::default();
    s.set_header_table_size(Some(4096));
    s.set_enable_push(true);
    s.set_max_concurrent_streams(Some(100));
    s.set_initial_window_size(Some(0x7fff_ffff));
    s.set_max_frame_size(Some(16777215));
    s.set_max_header_list_size(Some(262144));
    s.set_enable_connect_protocol(Some(1));
    s.set_no_rfc7540_priorities(Some(1));
    s.set_settings_order(SettingsOrder::builder().push(SettingId::NoRfc7540Priorities).build());
    let mut buf = BytesMut::new();
    s.encode(&mut buf);
    let back = Settings::load(settings_head(0, 0), &payload_of(&buf)).unwrap();
    for id in SettingId::default_ids() {
        assert_eq!(back.get(id), s.get(id));
    }
    assert_eq!(back.is_push_enabled(), Some(true));
    assert_eq!(back.is_extended_connect_protocol_enabled(), Some(true));
    assert_eq!(back.max_frame_size(), Some(16777215));
}

#[test]
fn settings_flags() {
    assert!(SettingsFlags::ack().is_ack());
    assert!(!SettingsFlags::empty().is_ack());
    assert!(SettingsFlags::load(0xff).is_ack());
    assert_eq!(SettingsFlags::load(0xfe).bits(), 0);
}

fn prio(stream: u32, dep: u32, weight: u8) -> Priority {
    Priority::new(StreamId(stream), StreamDependency::new(StreamId(dep), weight, false))
}

#[test]
fn priority_stream_zero_is_dropped() {
    let p = Priorities::builder().push(prio(0, 0, 10)).push(prio(3, 0, 20)).push(prio(0, 1, 30)).build();
    assert_eq!(p.to_vec(), vec![prio(3, 0, 20)]);
}

#[test]
fn priority_duplicates_keep_first_below_and_above_bitmap() {
    let p = Priorities::builder()
        .push(prio(5, 0, 1))
        .push(prio(40, 0, 2))
        .push(prio(5, 3, 9))
        .push(prio(40, 3, 9))
        .push(prio(31, 0, 4))
        .push(prio(32, 0, 5))
        .push(prio(31, 1, 1))
        .push(prio(32, 1, 1))
        .build();
    assert_eq!(p.to_vec(), vec![prio(5, 0, 1), prio(40, 0, 2), prio(31, 0, 4), prio(32, 0, 5)]);
}

#[test]
fn priority_extend_matches_pushes() {
    let list = vec![prio(1, 0, 1), prio(2, 1, 2), prio(1, 2, 3)];
    let p: Priorities = Priorities::builder().extend(list).build();
    assert_eq!(p.len(), 2);
    assert_eq!(p.get(1), prio(2, 1, 2));
}

#[test]
fn stream_dependency_load() {
    let d = StreamDependency::load(&[0x80, 0, 0, 3, 200]).unwrap();
    assert_eq!(d.dependency_id(), StreamId(3));
    assert!(d.is_exclusive());
    assert_eq!(d.weight(), 200);
    let d = StreamDependency::load(&[0, 0, 1, 0, 0]).unwrap();
    assert_eq!(d.dependency_id(), StreamId(256));
    assert!(!d.is_exclusive());
    assert_eq!(StreamDependency::load(&[0, 0, 0, 1]).unwrap_err(), Error::InvalidPayloadLength);
}

#[test]
fn stream_dependency_anchor_and_weight() {
    let d = StreamDependency::chrome();
    assert_eq!(d.dependency_id(), StreamId(0));
    assert_eq!(d.weight(), 255);
    assert!(d.is_exclusive());
    assert_eq!(StreamDependency::new(StreamId(1), 0, false).weight(), 0);
}

#[test]
fn priority_load_uses_anchor() {
    let head = Head::new(Kind::Priority, 0, StreamId(7));
    let p = Priority::load(head, &[0, 0, 0, 3, 16]).unwrap();
    assert_eq!(p.stream_id(), StreamId(7));
    assert_eq!(p.dependency(), StreamDependency::chrome());
}

#[test]
fn pseudo_order_dedups() {
    let o = PseudoOrder::builder()
        .push(PseudoId::Path)
        .push(PseudoId::Method)
        .push(PseudoId::Path)
        .build();
    assert_eq!(o.to_vec(), vec![PseudoId::Path, PseudoId::Method]);
    assert_eq!(PseudoId::Authority.letter(), 'a');
}

#[test]
fn stream_id_parse() {
    assert_eq!(StreamId::parse(&[0xff, 0xff, 0xff, 0xff]), (StreamId(0x7fff_ffff), true));
    assert_eq!(StreamId::parse(&[0, 0, 0, 1]), (StreamId(1), false));
    assert!(StreamId::zero().is_zero());
}
