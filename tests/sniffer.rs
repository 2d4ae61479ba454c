use tcp_bridge::sniffer::{SnifferEvent, SnifferState};

#[test]
fn repeats_collapse() {
    let mut s = SnifferState::new();
    assert_eq!(s.handle_packet("C->S", &[1, 2, 3]), SnifferEvent::Fresh { previous_repeats: 0 });
    assert_eq!(s.handle_packet("C->S", &[1, 2, 3]), SnifferEvent::Repeated);
    assert_eq!(s.handle_packet("C->S", &[1, 2, 3]), SnifferEvent::Repeated);
    assert_eq!(s.repeat_count, 2);
    assert_eq!(s.handle_packet("C->S", &[1, 2, 4]), SnifferEvent::Fresh { previous_repeats: 2 });
    assert_eq!(s.repeat_count, 0);
}

#[test]
fn direction_matters() {
    let mut s = SnifferState::new();
    s.handle_packet("C->S", &[7]);
    assert_eq!(s.handle_packet("S->C", &[7]), SnifferEvent::Fresh { previous_repeats: 0 });
    assert_eq!(s.last_packet, Some(("S->C".to_string(), vec![7])));
    assert_eq!(s.handle_packet("S->C", &[7]), SnifferEvent::Repeated);
    assert_eq!(s.handle_packet("S->C", &[]), SnifferEvent::Fresh { previous_repeats: 1 });
}
