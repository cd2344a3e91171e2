use deetsrgb::hid::{HidAction, HidEvent, Step};
use deetsrgb::sinowealth::{
    effect_name, packet, KbDone, CFG_LEN, CT_LEN, READ_WAIT_MS, REPLY_LEN, REPORT_LEN, RETRY_WAIT_MS, WRITE_WAIT_MS,
};
use deetsrgb::Keyboard;

/// The read request an action carries, checked against the exchange shape.
fn read_request(action: &HidAction) -> Vec<u8> {
    match action {
        HidAction::Exchange { request, wait_ms, reply_len, reply_id } => {
            assert_eq!(*wait_ms, READ_WAIT_MS);
            assert_eq!(*reply_len, REPLY_LEN);
            assert_eq!(*reply_id, 0x06);
            request.clone()
        }
        _ => panic!("expected a read"),
    }
}

fn written(step: Step<KbDone>) -> Vec<u8> {
    match step {
        Step::Next(HidAction::Write { packet, wait_ms }) => {
            assert_eq!(wait_ms, WRITE_WAIT_MS);
            packet
        }
        _ => panic!("expected a write"),
    }
}

fn answer(data: &[u8]) -> HidEvent {
    let mut buf = vec![0u8; REPLY_LEN];
    buf[0] = 0x06;
    buf[8..8 + data.len()].copy_from_slice(data);
    HidEvent::Received(buf)
}

fn config(effect: u8, brightness: u8) -> Vec<u8> {
    let mut cfg: Vec<u8> = (0..CFG_LEN).map(|i| (i * 7 % 251) as u8).collect();
    cfg[0x0A] = effect;
    cfg[0x09] = 1;
    cfg[0x3A] = brightness;
    cfg[0x3B] = 0x23;
    cfg[0x7E] = 0x5A;
    cfg[0x7F] = 0xA5;
    cfg
}

fn colours() -> Vec<u8> {
    (0..CT_LEN).map(|i| (i * 13 % 256) as u8).collect()
}

#[test]
fn packet_layout() {
    let p = packet(0x84, 0x80, &vec![]);
    assert_eq!(p.len(), REPORT_LEN);
    assert_eq!(&p[..8], &[0x06, 0x84, 0, 0, 0x01, 0, 0x80, 0x00]);
    assert!(p[8..].iter().all(|b| *b == 0));

    let data = colours();
    let p = packet(0x0A, data.len(), &data);
    assert_eq!(&p[..8], &[0x06, 0x0A, 0, 0, 0x01, 0, 0x00, 0x02]);
    assert_eq!(&p[8..], &data[..]);
}

#[test]
fn effect_names() {
    assert_eq!(effect_name(0), "Off");
    assert_eq!(effect_name(1), "Solid");
    assert_eq!(effect_name(11), "Stream");
    assert_eq!(effect_name(21), "Custom picture");
    assert_eq!(effect_name(6), "Effect 6");
    assert_eq!(effect_name(14), "Effect 14");
    assert_eq!(effect_name(255), "Effect 255");
}

#[test]
fn status_reads_config_then_colours() {
    let (mut kb, first) = Keyboard::status();
    assert_eq!(read_request(&first), packet(0x84, 0x80, &vec![]));
    let next = match kb.step(answer(&config(1, 4))) {
        Step::Next(a) => read_request(&a),
        _ => panic!("expected the colour table read"),
    };
    assert_eq!(next, packet(0x8A, 0x200, &vec![]));
    let mut ct = colours();
    ct[21] = 220;
    ct[22] = 235;
    ct[23] = 255;
    match kb.step(answer(&ct)) {
        Step::Done(Ok(KbDone::Status(s))) => {
            assert_eq!(s.effect, 1);
            assert_eq!(s.effect_name, "Solid");
            assert_eq!(s.brightness, 4);
            assert_eq!(s.rgb, [220, 235, 255]);
        }
        _ => panic!("expected the status"),
    }
}

#[test]
fn set_solid_is_read_modify_write() {
    let (mut kb, first) = Keyboard::set_solid([10, 20, 30], 12);
    assert_eq!(read_request(&first), packet(0x8A, 0x200, &vec![]));
    let ct = colours();
    let p = written(kb.step(answer(&ct)));
    let mut expected_ct = ct.clone();
    expected_ct[21..24].copy_from_slice(&[10, 20, 30]);
    assert_eq!(p, packet(0x0A, 0x200, &expected_ct));

    let next = match kb.step(HidEvent::Sent) {
        Step::Next(a) => read_request(&a),
        _ => panic!("expected the config read"),
    };
    assert_eq!(next, packet(0x84, 0x80, &vec![]));
    let cfg = config(3, 7);
    let p = written(kb.step(answer(&cfg)));
    let mut expected_cfg = cfg.clone();
    expected_cfg[0x0A] = 1;
    expected_cfg[0x09] = 0;
    expected_cfg[0x3A] = 9; // clamped
    expected_cfg[0x3B] = 0;
    assert_eq!(p, packet(0x04, 0x80, &expected_cfg));
    assert_eq!((p[8 + 0x7E], p[8 + 0x7F]), (0x5A, 0xA5));
    // the config block is read back once more before the session ends
    let read_back = match kb.step(HidEvent::Sent) {
        Step::Next(a) => read_request(&a),
        _ => panic!("expected the config read-back"),
    };
    assert_eq!(read_back, packet(0x84, 0x80, &vec![]));
    assert!(matches!(kb.step(answer(&expected_cfg)), Step::Done(Ok(KbDone::Applied))));
}

#[test]
fn solid_read_back_is_marker_checked_and_retried() {
    let (mut kb, _) = Keyboard::set_solid([1, 2, 3], 4);
    let _ = written(kb.step(answer(&colours())));
    let _ = kb.step(HidEvent::Sent);
    let _ = written(kb.step(answer(&config(1, 4))));
    assert!(matches!(kb.step(HidEvent::Sent), Step::Next(HidAction::Exchange { .. })));
    for attempt in 0..4 {
        assert!(matches!(kb.step(answer(&[0u8; CFG_LEN])), Step::Next(HidAction::Wait { .. })));
        match kb.step(HidEvent::Waited) {
            Step::Next(a) if attempt < 3 => assert_eq!(read_request(&a), packet(0x84, 0x80, &vec![])),
            Step::Done(Err(e)) if attempt == 3 => {
                assert_eq!(e, "keyboard config read failed the 5A A5 marker check; refusing to write")
            }
            _ => panic!("unexpected step"),
        }
    }
}

#[test]
fn solid_read_back_errors_are_reported() {
    let (mut kb, _) = Keyboard::set_solid([1, 2, 3], 4);
    let _ = written(kb.step(answer(&colours())));
    let _ = kb.step(HidEvent::Sent);
    let _ = written(kb.step(answer(&config(1, 4))));
    let _ = kb.step(HidEvent::Sent);
    match kb.step(HidEvent::ReceiveFailed("timeout".to_string())) {
        Step::Done(Err(e)) => assert_eq!(e, "keyboard read: timeout"),
        _ => panic!("expected the read error"),
    }
}

#[test]
fn set_off_selects_effect_zero() {
    let (mut kb, first) = Keyboard::set_off();
    assert_eq!(read_request(&first), packet(0x84, 0x80, &vec![]));
    let cfg = config(1, 4);
    let p = written(kb.step(answer(&cfg)));
    let mut expected = cfg.clone();
    expected[0x0A] = 0;
    expected[0x09] = 0;
    assert_eq!(p, packet(0x04, 0x80, &expected));
    assert!(matches!(kb.step(HidEvent::Sent), Step::Done(Ok(KbDone::Applied))));
}

#[test]
fn busy_keyboard_is_retried_four_times_and_never_written() {
    let (mut kb, _) = Keyboard::set_off();
    for attempt in 0..4 {
        match kb.step(answer(&[0u8; CFG_LEN])) {
            Step::Next(HidAction::Wait { ms }) => assert_eq!(ms, RETRY_WAIT_MS),
            _ => panic!("expected a wait before retrying"),
        }
        match kb.step(HidEvent::Waited) {
            Step::Next(a) if attempt < 3 => assert_eq!(read_request(&a), packet(0x84, 0x80, &vec![])),
            Step::Done(Err(e)) if attempt == 3 => {
                assert_eq!(e, "keyboard config read failed the 5A A5 marker check; refusing to write")
            }
            _ => panic!("unexpected step"),
        }
    }
}

#[test]
fn busy_answer_then_marker_succeeds() {
    let (mut kb, _) = Keyboard::status();
    assert!(matches!(kb.step(answer(&[0u8; CFG_LEN])), Step::Next(HidAction::Wait { .. })));
    assert!(matches!(kb.step(HidEvent::Waited), Step::Next(HidAction::Exchange { .. })));
    let next = match kb.step(answer(&config(0, 2))) {
        Step::Next(a) => read_request(&a),
        _ => panic!("expected the colour table read"),
    };
    assert_eq!(next, packet(0x8A, 0x200, &vec![]));
    // The colour table has no marker and is taken as it is.
    match kb.step(answer(&[0u8; CT_LEN])) {
        Step::Done(Ok(KbDone::Status(s))) => {
            assert_eq!(s.effect, 0);
            assert_eq!(s.effect_name, "Off");
            assert_eq!(s.brightness, 2);
            assert_eq!(s.rgb, [0, 0, 0]);
        }
        _ => panic!("expected the status"),
    }
}

#[test]
fn keyboard_transport_failures_are_reported() {
    let (mut kb, _) = Keyboard::status();
    match kb.step(HidEvent::SendFailed("gone".to_string())) {
        Step::Done(Err(e)) => assert_eq!(e, "keyboard read request: gone"),
        _ => panic!(),
    }
    let (mut kb, _) = Keyboard::status();
    match kb.step(HidEvent::ReceiveFailed("timeout".to_string())) {
        Step::Done(Err(e)) => assert_eq!(e, "keyboard read: timeout"),
        _ => panic!(),
    }
    let (mut kb, _) = Keyboard::set_off();
    let _ = written(kb.step(answer(&config(1, 1))));
    match kb.step(HidEvent::SendFailed("pipe".to_string())) {
        Step::Done(Err(e)) => assert_eq!(e, "keyboard write: pipe"),
        _ => panic!(),
    }
}

#[test]
fn solid_written_is_read_back_by_status() {
    let (mut kb, _) = Keyboard::set_solid([1, 2, 3], 5);
    let ct_written = written(kb.step(answer(&colours())));
    let _ = kb.step(HidEvent::Sent);
    let cfg_written = written(kb.step(answer(&config(7, 9))));

    let (mut st, _) = Keyboard::status();
    let _ = st.step(answer(&cfg_written[8..8 + CFG_LEN]));
    match st.step(answer(&ct_written[8..8 + CT_LEN])) {
        Step::Done(Ok(KbDone::Status(s))) => {
            assert_eq!(s.effect, 1);
            assert_eq!(s.effect_name, "Solid");
            assert_eq!(s.brightness, 5);
            assert_eq!(s.rgb, [1, 2, 3]);
        }
        _ => panic!("expected the status"),
    }
}

#[test]
fn lighting_interface_match() {
    assert!(Keyboard::is_lighting_interface(0x258A, 0x010C, 0xFF00, 0x0001, r"\\?\HID#VID_258A&PID_010C&MI_01&Col06#x"));
    assert!(!Keyboard::is_lighting_interface(0x258A, 0x010C, 0xFF00, 0x0001, r"\\?\HID#VID_258A&PID_010C&MI_01&Col05#x"));
    assert!(!Keyboard::is_lighting_interface(0x258A, 0x010C, 0xFF00, 0x0002, r"Col06"));
    assert!(!Keyboard::is_lighting_interface(0x258A, 0x010D, 0xFF00, 0x0001, r"Col06"));
}
