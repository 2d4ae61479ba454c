use tcp_bridge::commands::{convert_command, parse_commands, parse_legacy_command, Command, ProxyCommand};
use tcp_bridge::mix::MixAction;
use tcp_bridge::names::{Fader, MixOutput, Source};

#[test]
fn legacy_mute() {
    assert_eq!(parse_legacy_command("mute 1 1"), Some(ProxyCommand::Mute { fader_index: 1, mute: true }));
    assert_eq!(parse_legacy_command("  mute\t2  0 \n"), Some(ProxyCommand::Mute { fader_index: 2, mute: false }));
    assert_eq!(parse_legacy_command("mute 3 7 extra"), Some(ProxyCommand::Mute { fader_index: 3, mute: true }));
    assert_eq!(parse_legacy_command("mute 1"), None);
    assert_eq!(parse_legacy_command("mute 256 1"), None);
    assert_eq!(parse_legacy_command("mute -1 1"), None);
    assert_eq!(parse_legacy_command("mute +4 1"), Some(ProxyCommand::Mute { fader_index: 4, mute: true }));
    assert_eq!(parse_legacy_command("mute + 1"), None);
    assert_eq!(parse_legacy_command("mute 0x1 1"), None);
}

#[test]
fn legacy_source_and_level() {
    assert_eq!(
        parse_legacy_command("source 0 4294967295"),
        Some(ProxyCommand::Source { fader_index: 0, source_id: 0xFFFF_FFFF })
    );
    assert_eq!(parse_legacy_command("source 0 4294967296"), None);
    assert_eq!(
        parse_legacy_command("level 5 0032768"),
        Some(ProxyCommand::Level { fader_index: 5, level: 32768 })
    );
    assert_eq!(parse_legacy_command("level x 1"), None);
}

#[test]
fn legacy_touch_and_unknown() {
    assert_eq!(parse_legacy_command("touch"), Some(ProxyCommand::Touch));
    assert_eq!(parse_legacy_command("touch now"), Some(ProxyCommand::Touch));
    assert_eq!(parse_legacy_command(""), None);
    assert_eq!(parse_legacy_command("   "), None);
    assert_eq!(parse_legacy_command("TOUCH"), None);
    assert_eq!(parse_legacy_command("jump 1 2"), None);
}

#[test]
fn legacy_unicode_whitespace_separates() {
    assert_eq!(
        parse_legacy_command("mute\u{3000}1\u{a0}1"),
        Some(ProxyCommand::Mute { fader_index: 1, mute: true })
    );
}

#[test]
fn legacy_mix_verbs() {
    assert_eq!(
        parse_legacy_command("mix_link 10 14"),
        Some(ProxyCommand::Mix { action: MixAction::Link, mix_index: 10, source: Source::Bluetooth })
    );
    assert_eq!(
        parse_legacy_command("mix_unlink 11 4"),
        Some(ProxyCommand::Mix { action: MixAction::Unlink, mix_index: 11, source: Source::Combo1 })
    );
    assert_eq!(parse_legacy_command("mix_link 10 20"), None);
    assert_eq!(parse_legacy_command("mix_link 10 0"), None);
    assert_eq!(
        parse_legacy_command("mix_disable 12 15 0"),
        Some(ProxyCommand::Mix { action: MixAction::Disable, mix_index: 12, source: Source::SoundPad })
    );
    assert_eq!(parse_legacy_command("mix_disable 12 15"), None);
    assert_eq!(
        parse_legacy_command("mix_disable 10 14 on"),
        Some(ProxyCommand::Mix { action: MixAction::Disable, mix_index: 10, source: Source::Bluetooth })
    );
    assert_eq!(parse_legacy_command("mix_disable 12 2 0"), None);
}

#[test]
fn legacy_callme_verbs() {
    assert_eq!(
        parse_legacy_command("callme_link 10 2"),
        Some(ProxyCommand::Mix { action: MixAction::Link, mix_index: 10, source: Source::CallMe2 })
    );
    assert_eq!(
        parse_legacy_command("callme_unlink 10 3"),
        Some(ProxyCommand::Mix { action: MixAction::Unlink, mix_index: 10, source: Source::CallMe3 })
    );
    assert_eq!(parse_legacy_command("callme_link 10 4"), None);
    assert_eq!(parse_legacy_command("callme_unlink 10 0"), None);
}

#[test]
fn fader_fields_in_order() {
    let cmd = Command::Fader {
        fader: Fader::Physical2,
        muted: Some(true),
        source: Some(Source::Usb1),
        level: Some(32768),
    };
    assert_eq!(
        convert_command(cmd),
        vec![
            ProxyCommand::Mute { fader_index: 1, mute: true },
            ProxyCommand::Source { fader_index: 1, source_id: 11 },
            ProxyCommand::Level { fader_index: 1, level: 32768 },
        ]
    );
    let only_level = Command::level(Fader::Virtual1, 7);
    assert_eq!(convert_command(only_level), vec![ProxyCommand::Level { fader_index: 6, level: 7 }]);
    let none = Command::Fader { fader: Fader::Physical1, muted: None, source: None, level: None };
    assert!(convert_command(none).is_empty());
}

#[test]
fn typed_mix_and_touch() {
    assert_eq!(
        convert_command(Command::mix_link(MixOutput::Headphone1, Source::Bluetooth)),
        vec![ProxyCommand::Mix { action: MixAction::Link, mix_index: 10, source: Source::Bluetooth }]
    );
    assert_eq!(
        convert_command(Command::mix_unlink(MixOutput::CallMe1, Source::CallMe1)),
        vec![ProxyCommand::Mix { action: MixAction::Unlink, mix_index: 20, source: Source::CallMe1 }]
    );
    let refused = Command::Mix { action: MixAction::Disable, mix: MixOutput::Speaker, source: Source::CallMe2 };
    assert!(convert_command(refused).is_empty());
    assert_eq!(convert_command(Command::Touch), vec![ProxyCommand::Touch]);
    assert_eq!(
        convert_command(Command::mute(Fader::Physical1, false)),
        vec![ProxyCommand::Mute { fader_index: 0, mute: false }]
    );
}

#[test]
fn typed_first_then_legacy() {
    assert_eq!(parse_commands(Some(Command::Touch), "mute 1 1"), vec![ProxyCommand::Touch]);
    assert_eq!(
        parse_commands(None, "mute 1 1"),
        vec![ProxyCommand::Mute { fader_index: 1, mute: true }]
    );
    assert!(parse_commands(None, "{\"type\":\"bogus\"}").is_empty());
}
