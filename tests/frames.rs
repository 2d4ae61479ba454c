use tcp_bridge::frame::{extract_session_id, Packet, FRAME_MAGIC};
use tcp_bridge::proxy::{injection_step, InjectionAction, InjectionPhase, SessionTracker};
use tcp_bridge::commands::ProxyCommand;

#[test]
fn frame_round_trip() {
    for payload in [vec![], vec![0xAB], (0u8..=255).collect::<Vec<u8>>()] {
        let bytes = Packet::new(payload.clone()).to_bytes();
        assert_eq!(bytes.len(), payload.len() + 8);
        let (p, used) = Packet::parse(&bytes).expect("a whole frame");
        assert_eq!(p.payload, payload);
        assert_eq!(p.length as usize, payload.len());
        assert_eq!(p.header, FRAME_MAGIC);
        assert_eq!(used, bytes.len());
    }
}

#[test]
fn frame_header_is_little_endian() {
    let bytes = Packet::new(vec![0u8; 0x0102]).to_bytes();
    assert_eq!(&bytes[..8], &[0x2C, 0x9E, 0xB4, 0xF2, 0x02, 0x01, 0x00, 0x00]);
}

#[test]
fn parse_stops_at_frame_end() {
    let mut bytes = Packet::new(vec![1, 2, 3]).to_bytes();
    bytes.extend_from_slice(&[9, 9, 9]);
    let (p, used) = Packet::parse(&bytes).unwrap();
    assert_eq!(p.payload, vec![1, 2, 3]);
    assert_eq!(used, 11);
}

#[test]
fn parse_refuses_partial_or_foreign() {
    let bytes = Packet::new(vec![1, 2, 3, 4]).to_bytes();
    assert!(Packet::parse(&bytes[..7]).is_none());
    assert!(Packet::parse(&bytes[..11]).is_none());
    let mut wrong = bytes.clone();
    wrong[0] = 0x2D;
    assert!(Packet::parse(&wrong).is_none());
    assert!(Packet::parse(&[]).is_none());
}

#[test]
fn session_id_extraction() {
    let buf = [0x2C, 0x9E, 0xB4, 0xF2, 0x10, 0x00, 0x00, 0x00, 0xDE, 0xAD, 0xBE, 0xEF, 0x01];
    assert_eq!(extract_session_id(&buf), Some(vec![0xDE, 0xAD, 0xBE, 0xEF]));
    assert_eq!(extract_session_id(&buf[..12]), Some(vec![0xDE, 0xAD, 0xBE, 0xEF]));
    assert_eq!(extract_session_id(&buf[..11]), None);
    let mut wrong = buf;
    wrong[3] = 0xF3;
    assert_eq!(extract_session_id(&wrong), None);
    let ping = [0x2C, 0x9E, 0xB4, 0xF2, 0x04, 0x00, 0x00, 0x00, 0x70, 0x69, 0x6E, 0x67];
    assert_eq!(extract_session_id(&ping), None);
    let almost_ping = [0x2C, 0x9E, 0xB4, 0xF2, 0x04, 0x00, 0x00, 0x00, 0x70, 0x69, 0x6E, 0x68];
    assert_eq!(extract_session_id(&almost_ping), Some(vec![0x70, 0x69, 0x6E, 0x68]));
}

#[test]
fn session_learn() {
    let mut tracker = SessionTracker::new();
    assert_eq!(tracker.session_id(), &[0x01, 0x01, 0x01, 0x01]);
    let buf = [0x2C, 0x9E, 0xB4, 0xF2, 0x10, 0x00, 0x00, 0x00, 0xDE, 0xAD, 0xBE, 0xEF, 0x00, 0x00];
    assert!(tracker.observe(&buf));
    assert_eq!(tracker.session_id(), &[0xDE, 0xAD, 0xBE, 0xEF]);
    let frames = tracker.injection(&ProxyCommand::Mute { fader_index: 1, mute: true });
    assert_eq!(frames.len(), 1);
    assert_eq!(&frames[0][..8], &[0x2C, 0x9E, 0xB4, 0xF2, 0x1A, 0x00, 0x00, 0x00]);
    assert_eq!(&frames[0][8..12], &[0xDE, 0xAD, 0xBE, 0xEF]);
    assert_eq!(frames[0][12], 0x1D);
}

#[test]
fn ping_ignored() {
    let mut tracker = SessionTracker::new();
    let learn = [0x2C, 0x9E, 0xB4, 0xF2, 0x04, 0x00, 0x00, 0x00, 0x0A, 0x0B, 0x0C, 0x0D];
    assert!(tracker.observe(&learn));
    let ping = [0x2C, 0x9E, 0xB4, 0xF2, 0x04, 0x00, 0x00, 0x00, 0x70, 0x69, 0x6E, 0x67];
    assert!(!tracker.observe(&ping));
    assert_eq!(tracker.session_id(), &[0x0A, 0x0B, 0x0C, 0x0D]);
    assert!(!tracker.observe(&[0x2C, 0x9E]));
    assert_eq!(tracker.session_id(), &[0x0A, 0x0B, 0x0C, 0x0D]);
}

#[test]
fn link_injection_frames_in_order() {
    let tracker = SessionTracker::new();
    let cmd = ProxyCommand::Mix {
        action: tcp_bridge::mix::MixAction::Link,
        mix_index: 10,
        source: tcp_bridge::names::Source::Bluetooth,
    };
    let frames = tracker.injection(&cmd);
    let payloads = cmd.build_payloads(tracker.session_id());
    assert_eq!(frames.len(), 2);
    for (f, p) in frames.iter().zip(payloads.iter()) {
        assert_eq!(f, &Packet::new(p.clone()).to_bytes());
    }
}

#[test]
fn to_bytes_writes_fields_as_they_are() {
    let p = Packet { header: 0x0403_0201, length: 7, payload: vec![0xAA] };
    assert_eq!(p.to_bytes(), vec![0x01, 0x02, 0x03, 0x04, 0x07, 0x00, 0x00, 0x00, 0xAA]);
}

#[test]
fn parse_huge_declared_length() {
    let bytes = [0x2C, 0x9E, 0xB4, 0xF2, 0xFF, 0xFF, 0xFF, 0xFF, 0x00, 0x01];
    assert!(Packet::parse(&bytes).is_none());
}

fn run_injection(count: usize, fail_at: Option<usize>) -> Vec<InjectionAction> {
    let mut phase = InjectionPhase::Next { frame: 0 };
    let mut failed = false;
    let mut out = Vec::new();
    loop {
        let (action, next) = injection_step(phase, count, failed);
        phase = next;
        out.push(action);
        match action {
            InjectionAction::Write { frame } => failed = Some(frame) == fail_at,
            InjectionAction::Stop => break,
            _ => {}
        }
    }
    out
}

#[test]
fn injection_schedule_link() {
    assert_eq!(
        run_injection(2, None),
        vec![
            InjectionAction::Enqueue { frame: 0 },
            InjectionAction::Write { frame: 0 },
            InjectionAction::Pause { millis: 50 },
            InjectionAction::Enqueue { frame: 1 },
            InjectionAction::Write { frame: 1 },
            InjectionAction::Stop
        ]
    );
    assert_eq!(run_injection(1, None), vec![InjectionAction::Enqueue { frame: 0 }, InjectionAction::Write { frame: 0 }, InjectionAction::Stop]);
    assert_eq!(run_injection(0, None), vec![InjectionAction::Stop]);
}

#[test]
fn injection_stops_after_failed_write() {
    assert_eq!(run_injection(2, Some(0)), vec![InjectionAction::Enqueue { frame: 0 }, InjectionAction::Write { frame: 0 }, InjectionAction::Stop]);
}
