use tcp_bridge::names::{index_to_source, Fader, MixOutput, Source};

const MIXES: [MixOutput; 13] = [
    MixOutput::Headphone1, MixOutput::Headphone2, MixOutput::Headphone3, MixOutput::Headphone4,
    MixOutput::Speaker, MixOutput::Recording, MixOutput::Bluetooth, MixOutput::Usb1,
    MixOutput::Chat, MixOutput::Usb2, MixOutput::CallMe1, MixOutput::CallMe2, MixOutput::CallMe3,
];

const SOURCES: [Source; 19] = [
    Source::Combo1, Source::Combo2, Source::Combo3, Source::Combo4, Source::Combo1_2,
    Source::Combo2_3, Source::Combo3_4, Source::Usb1, Source::Chat, Source::Usb2,
    Source::Bluetooth, Source::SoundPad, Source::VirtualGame, Source::VirtualMusic,
    Source::VirtualA, Source::VirtualB, Source::CallMe1, Source::CallMe2, Source::CallMe3,
];

const FADERS: [Fader; 9] = [
    Fader::Physical1, Fader::Physical2, Fader::Physical3, Fader::Physical4, Fader::Physical5,
    Fader::Physical6, Fader::Virtual1, Fader::Virtual2, Fader::Virtual3,
];

#[test]
fn display_names_parse_back() {
    for m in MIXES {
        assert_eq!(m.name().parse::<MixOutput>(), Ok(m));
        assert_eq!(m.name().to_uppercase().parse::<MixOutput>(), Ok(m));
    }
    for s in SOURCES {
        assert_eq!(s.name().parse::<Source>(), Ok(s));
    }
    for f in FADERS {
        assert_eq!(f.name().parse::<Fader>(), Ok(f));
    }
}

#[test]
fn aliases_in_any_case() {
    assert_eq!(MixOutput::parse_name("HP1"), Ok(MixOutput::Headphone1));
    assert_eq!(MixOutput::parse_name("Spk"), Ok(MixOutput::Speaker));
    assert_eq!(MixOutput::parse_name("cm3"), Ok(MixOutput::CallMe3));
    assert_eq!(Source::parse_name("Mic2"), Ok(Source::Combo2));
    assert_eq!(Source::parse_name("combo23"), Ok(Source::Combo2_3));
    assert_eq!(Source::parse_name("VGAME"), Ok(Source::VirtualGame));
    assert_eq!(Source::parse_name("music"), Ok(Source::VirtualMusic));
    assert_eq!(Source::parse_name("pad"), Ok(Source::SoundPad));
    assert_eq!(Fader::parse_name("fader6"), Ok(Fader::Physical6));
    assert_eq!(Fader::parse_name("4"), Ok(Fader::Physical4));
    assert_eq!(Fader::parse_name("V3"), Ok(Fader::Virtual3));
    assert_eq!(Fader::parse_name("vfader2"), Ok(Fader::Virtual2));
}

#[test]
fn unknown_names_are_errors() {
    assert_eq!(
        MixOutput::parse_name("hp5"),
        Err("Unknown mix: hp5 (try: hp1, speaker, bt, cm1)".to_string())
    );
    assert_eq!(
        Source::parse_name("Mic9"),
        Err("Unknown source: Mic9 (try: combo1, bt, game, cm1)".to_string())
    );
    assert_eq!(Fader::parse_name("7"), Err("Unknown fader: 7 (try: p1, fader1, v1)".to_string()));
    assert!(Fader::parse_name("").is_err());
}

#[test]
fn indices() {
    let mix: Vec<u8> = MIXES.iter().map(|m| m.to_index()).collect();
    assert_eq!(mix, (10u8..=22).collect::<Vec<u8>>());
    let fad: Vec<u8> = FADERS.iter().map(|f| f.to_index()).collect();
    assert_eq!(fad, (0u8..=8).collect::<Vec<u8>>());
    assert_eq!(Source::Combo1.to_index(), 4);
    assert_eq!(Source::Combo3_4.to_index(), 10);
    assert_eq!(Source::Bluetooth.to_index(), 14);
    assert_eq!(Source::VirtualB.to_index(), 19);
    assert_eq!(Source::CallMe2.to_index(), 2);
}

#[test]
fn callme_sources() {
    for s in SOURCES {
        let expect = matches!(s, Source::CallMe1 | Source::CallMe2 | Source::CallMe3);
        assert_eq!(s.is_callme(), expect);
    }
}

#[test]
fn sources_by_index() {
    for s in SOURCES {
        assert_eq!(index_to_source(s.to_index()), Some(s));
    }
    assert_eq!(index_to_source(0), None);
    assert_eq!(index_to_source(20), None);
    assert_eq!(index_to_source(255), None);
}
