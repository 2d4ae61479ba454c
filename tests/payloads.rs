use tcp_bridge::commands::ProxyCommand;
use tcp_bridge::frame::Packet;
use tcp_bridge::mix::{calculate_mix_prefix, MixAction, MixCommand};
use tcp_bridge::names::Source;
use tcp_bridge::protocol::{
    build_channel_output_mute, ChannelInputSource, ChannelOutputMute, FaderLevel,
    InputMicrophoneType, RodeCommand, ScreenTouched,
};

const SID: [u8; 4] = [0x01, 0x02, 0x03, 0x04];

fn tag(name: &str) -> Vec<u8> {
    let mut v = name.as_bytes().to_vec();
    v.push(0);
    v
}

fn cat(parts: &[&[u8]]) -> Vec<u8> {
    parts.concat()
}

const ROUTE_TAIL: [u8; 9] = [0x01, 0x07, 0x08, 0x01, 0x01, 0x02, 0x01, 0x01, 0x02];

#[test]
fn mute_fader_one_on() {
    let payload = ChannelOutputMute { fader_index: 1, mute: true }.build_payload(&SID);
    let expected: Vec<u8> = vec![
        0x01, 0x02, 0x03, 0x04, 0x1D, 0x63, 0x68, 0x61, 0x6E, 0x6E, 0x65, 0x6C, 0x4F, 0x75, 0x74,
        0x70, 0x75, 0x74, 0x4D, 0x75, 0x74, 0x65, 0x00, 0x01, 0x01, 0x02,
    ];
    assert_eq!(payload, expected);
    let framed = Packet::new(payload.clone()).to_bytes();
    let mut want = vec![0x2C, 0x9E, 0xB4, 0xF2, 0x1A, 0x00, 0x00, 0x00];
    want.extend_from_slice(&expected);
    assert_eq!(framed, want);
}

#[test]
fn unmute_ends_with_three() {
    let payload = ChannelOutputMute { fader_index: 0, mute: false }.build_payload(&SID);
    assert_eq!(payload[4], 0x1C);
    assert_eq!(*payload.last().unwrap(), 0x03);
}

#[test]
fn mute_with_default_session() {
    let payload = build_channel_output_mute(2, true);
    assert_eq!(&payload[..5], &[0x01, 0x01, 0x01, 0x01, 0x1E]);
    assert_eq!(payload.len(), 26);
}

#[test]
fn fader_byte_wraps_modulo_256() {
    let payload = ChannelOutputMute { fader_index: 0xF0, mute: true }.build_payload(&SID);
    assert_eq!(payload[4], 0x0C);
}

#[test]
fn set_level_fader_zero() {
    let payload = FaderLevel { fader_index: 0, level: 32768 }.build_payload(&SID);
    let expected: Vec<u8> = vec![
        0x01, 0x01, 0x02, 0x00, 0x01, 0x04, 0x66, 0x61, 0x64, 0x65, 0x72, 0x4C, 0x65, 0x76, 0x65,
        0x6C, 0x00, 0x01, 0x05, 0x01, 0x00, 0x80, 0x00, 0x00,
    ];
    assert_eq!(payload, expected);
}

#[test]
fn level_ignores_session_id() {
    let a = FaderLevel { fader_index: 3, level: 0xFFFF }.build_payload(&SID);
    let b = FaderLevel { fader_index: 3, level: 0xFFFF }.build_payload(&[0xDE, 0xAD, 0xBE, 0xEF]);
    assert_eq!(a, b);
    assert_eq!(a[5], 0x07);
    assert_eq!(&a[a.len() - 4..], &[0xFF, 0xFF, 0x00, 0x00]);
}

#[test]
fn input_source_layout() {
    let payload = ChannelInputSource { fader_index: 2, source_id: 0x0102_0304 }.build_payload(&SID);
    let expected = cat(&[
        &SID,
        &[0x1E],
        &tag("channelInputSource"),
        &[0x01, 0x05, 0x01],
        &[0x04, 0x03, 0x02, 0x01],
    ]);
    assert_eq!(payload, expected);
}

#[test]
fn mic_type_negative_sentinel() {
    let cmd = InputMicrophoneType::from_signed(0, -1);
    assert_eq!(cmd.mic_type, 0xFFFF_FFFF);
    let payload = cmd.build_payload(&SID);
    let expected = cat(&[
        &SID,
        &[0x1C],
        &tag("inputMicrophoneType"),
        &[0x01, 0x05, 0x01],
        &[0xFF, 0xFF, 0xFF, 0xFF],
    ]);
    assert_eq!(payload, expected);
    assert_eq!(InputMicrophoneType::from_signed(1, 7).mic_type, 7);
    assert_eq!(InputMicrophoneType::from_signed(1, i32::MIN).mic_type, 0x8000_0000);
}

#[test]
fn screen_touched_layout() {
    let payload = ScreenTouched.build_payload(&SID);
    let expected = cat(&[&SID, &[0x07], &tag("screenTouched"), &[0x01, 0x01, 0x02]]);
    assert_eq!(payload, expected);
}

#[test]
fn mix_link_bluetooth_to_headphone1() {
    let payloads = MixCommand::new(MixAction::Link, 10, Source::Bluetooth).build_payloads(&SID);
    assert_eq!(payloads.len(), 2);
    let enable = cat(&[&SID, &[0xC0], &tag("mixDisabled"), &[0x01, 0x01, 0x03]]);
    let link = cat(&[&SID, &[0xC0], &tag("mixLinkRequest"), &ROUTE_TAIL]);
    assert_eq!(payloads[0], enable);
    assert_eq!(payloads[1], link);
}

#[test]
fn mix_unlink_and_disable() {
    let unlink = MixCommand::new(MixAction::Unlink, 11, Source::Combo1).build_payloads(&SID);
    let prefix = (4 * 13 + 11) as u8;
    assert_eq!(unlink, vec![cat(&[&SID, &[prefix], &tag("mixUnlinkRequest"), &ROUTE_TAIL])]);
    let disable = MixCommand::new(MixAction::Disable, 11, Source::Combo1).build_payloads(&SID);
    assert_eq!(disable, vec![cat(&[&SID, &[prefix], &tag("mixDisabled"), &[0x01, 0x01, 0x02]])]);
}

#[test]
fn callme_unlink_mix_ten() {
    let payloads = MixCommand::new(MixAction::Unlink, 10, Source::CallMe2).build_payloads(&SID);
    let expected = cat(&[
        &[0x01, 0x01, 0x01, 0x02, 0x0E, 0x02],
        &tag("mixUnlinkRequest"),
        &ROUTE_TAIL,
    ]);
    assert_eq!(payloads, vec![expected]);
}

#[test]
fn callme_link_is_one_payload() {
    let payloads = MixCommand::new(MixAction::Link, 12, Source::CallMe3).build_payloads(&SID);
    let expected = cat(&[
        &[0x01, 0x01, 0x01, 0x02, 0x10, 0x03],
        &tag("mixLinkRequest"),
        &ROUTE_TAIL,
    ]);
    assert_eq!(payloads, vec![expected]);
}

#[test]
fn callme_disable_is_refused() {
    let payloads = MixCommand::new(MixAction::Disable, 10, Source::CallMe1).build_payloads(&SID);
    assert!(payloads.is_empty());
    let first = MixCommand::new(MixAction::Disable, 10, Source::CallMe1).build_payload(&SID);
    assert!(first.is_empty());
}

#[test]
fn prefix_formula_wraps() {
    assert_eq!(calculate_mix_prefix(14, 10), 0xC0);
    assert_eq!(calculate_mix_prefix(19, 22), 13);
    assert_eq!(calculate_mix_prefix(0, 0), 0);
    for s in 0u8..=19 {
        for m in 10u8..=22 {
            let want = ((s as u32 * 13 + m as u32) % 256) as u8;
            assert_eq!(calculate_mix_prefix(s, m), want);
        }
    }
}

#[test]
fn link_request_follows_prefix_byte() {
    let payloads = MixCommand::new(MixAction::Link, 22, Source::VirtualB).build_payloads(&SID);
    let link = &payloads[1];
    assert_eq!(link[4], 13);
    assert_eq!(&link[5..5 + 15], tag("mixLinkRequest").as_slice());
}

#[test]
fn proxy_command_payloads() {
    let mute = ProxyCommand::Mute { fader_index: 1, mute: true };
    assert_eq!(
        mute.build_payloads(&SID),
        vec![ChannelOutputMute { fader_index: 1, mute: true }.build_payload(&SID)]
    );
    let link = ProxyCommand::Mix { action: MixAction::Link, mix_index: 10, source: Source::Bluetooth };
    let all = link.build_payloads(&SID);
    assert_eq!(all.len(), 2);
    assert_eq!(link.build_payload(&SID), all[0]);
    let mic = ProxyCommand::MicType { fader_index: 0, mic_type: 3 };
    assert_eq!(mic.build_payloads(&SID).len(), 1);
    assert_eq!(ProxyCommand::Touch.build_payload(&SID), ScreenTouched.build_payload(&SID));
    let level = ProxyCommand::Level { fader_index: 0, level: 32768 };
    assert_eq!(level.build_payload(&SID), FaderLevel { fader_index: 0, level: 32768 }.build_payload(&SID));
    let source = ProxyCommand::Source { fader_index: 2, source_id: 9 };
    assert_eq!(
        source.build_payload(&SID),
        ChannelInputSource { fader_index: 2, source_id: 9 }.build_payload(&SID)
    );
}
