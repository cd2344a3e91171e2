use deetsrgb::hid::{HidAction, HidEvent, Step};
use deetsrgb::razer::{report, MouseDone, LED_LOGO, LED_SCROLL, REPORT_LEN, SETTLE_MS, TXN, VARSTORE};
use deetsrgb::Mouse;

fn request(action: &HidAction) -> Vec<u8> {
    match action {
        HidAction::Exchange { request, wait_ms, reply_len, reply_id } => {
            assert_eq!(*wait_ms, SETTLE_MS);
            assert_eq!(*reply_len, REPORT_LEN);
            assert_eq!(*reply_id, 0);
            request.clone()
        }
        _ => panic!("the mouse only exchanges reports"),
    }
}

fn reply(status: u8, args: &[(usize, u8)]) -> HidEvent {
    let mut r = vec![0u8; REPORT_LEN];
    r[1] = status;
    for (i, b) in args {
        r[9 + i] = *b;
    }
    HidEvent::Received(r)
}

fn xor(r: &[u8]) -> u8 {
    r[3..89].iter().fold(0u8, |a, b| a ^ b)
}

#[test]
fn report_layout_and_crc() {
    let r = report(0x00, 0x81, 0x02, &vec![]);
    assert_eq!(r.len(), 91);
    assert_eq!(r[0], 0);
    assert_eq!(r[2], TXN);
    assert_eq!(r[6], 0x02);
    assert_eq!(r[7], 0x00);
    assert_eq!(r[8], 0x81);
    assert_eq!(r[89], 0x83);
    assert_eq!(r[90], 0);

    let r = report(0x0F, 0x02, 0x09, &vec![0x01, 0x04, 0x01, 0, 0, 0x01, 10, 20, 30]);
    assert_eq!(&r[9..18], &[0x01, 0x04, 0x01, 0, 0, 0x01, 10, 20, 30]);
    assert_eq!(r[89], xor(&r));
    assert_eq!(r[89], 0x09 ^ 0x0F ^ 0x02 ^ 0x01 ^ 0x04 ^ 0x01 ^ 0x01 ^ 10 ^ 20 ^ 30);
}

#[test]
fn report_with_full_arguments() {
    let args: Vec<u8> = (1..=80).collect();
    let r = report(0x0F, 0x04, 80, &args);
    assert_eq!(&r[9..89], &args[..]);
    assert_eq!(r[89], xor(&r));
}

#[test]
fn status_reads_firmware_and_brightness() {
    let (mut m, first) = Mouse::status();
    let fw = request(&first);
    assert_eq!((fw[7], fw[8], fw[6]), (0x00, 0x81, 0x02));
    let next = match m.step(reply(0x02, &[(0, 1), (1, 6)])) {
        Step::Next(a) => request(&a),
        _ => panic!("expected the logo query"),
    };
    assert_eq!((next[7], next[8], next[9], next[10]), (0x0F, 0x84, VARSTORE, LED_LOGO));
    let next = match m.step(reply(0x02, &[(2, 255)])) {
        Step::Next(a) => request(&a),
        _ => panic!("expected the scroll query"),
    };
    assert_eq!((next[7], next[8], next[9], next[10]), (0x0F, 0x84, VARSTORE, LED_SCROLL));
    match m.step(reply(0x02, &[(2, 128)])) {
        Step::Done(Ok(MouseDone::Status(s))) => {
            assert_eq!(s.firmware, "v1.6");
            assert_eq!(s.logo_brightness, 255);
            assert_eq!(s.scroll_brightness, 128);
        }
        _ => panic!("expected the status"),
    }
}

#[test]
fn set_static_sends_colour_then_brightness_on_each_led() {
    let (mut m, first) = Mouse::set_static([10, 20, 30], 102);
    let mut sent = vec![request(&first)];
    loop {
        match m.step(reply(0x02, &[])) {
            Step::Next(a) => sent.push(request(&a)),
            Step::Done(r) => {
                assert!(matches!(r, Ok(MouseDone::Applied)));
                break;
            }
        }
    }
    assert_eq!(sent.len(), 4);
    assert_eq!(sent[0], report(0x0F, 0x02, 0x09, &vec![VARSTORE, LED_LOGO, 0x01, 0, 0, 0x01, 10, 20, 30]));
    assert_eq!(sent[1], report(0x0F, 0x04, 0x03, &vec![VARSTORE, LED_LOGO, 102]));
    assert_eq!(sent[2], report(0x0F, 0x02, 0x09, &vec![VARSTORE, LED_SCROLL, 0x01, 0, 0, 0x01, 10, 20, 30]));
    assert_eq!(sent[3], report(0x0F, 0x04, 0x03, &vec![VARSTORE, LED_SCROLL, 102]));
    for r in &sent {
        assert_eq!(r[2], TXN);
        assert_eq!(r[89], xor(r));
    }
}

#[test]
fn set_off_turns_off_logo_then_scroll() {
    let (mut m, first) = Mouse::set_off();
    assert_eq!(request(&first), report(0x0F, 0x02, 0x06, &vec![VARSTORE, LED_LOGO, 0, 0, 0, 0]));
    let second = match m.step(reply(0x02, &[])) {
        Step::Next(a) => request(&a),
        _ => panic!("expected the scroll wheel"),
    };
    assert_eq!(second, report(0x0F, 0x02, 0x06, &vec![VARSTORE, LED_SCROLL, 0, 0, 0, 0]));
    assert!(matches!(m.step(reply(0x02, &[])), Step::Done(Ok(MouseDone::Applied))));
}

#[test]
fn rejected_command_stops_the_session() {
    let (mut m, _) = Mouse::set_static([1, 2, 3], 4);
    match m.step(reply(0x01, &[])) {
        Step::Done(Err(e)) => assert_eq!(e, "mouse rejected command 0f/02: status 0x01"),
        _ => panic!("expected the rejection"),
    }
    let (mut m, _) = Mouse::status();
    match m.step(reply(0x05, &[])) {
        Step::Done(Err(e)) => assert_eq!(e, "mouse rejected command 00/81: status 0x05"),
        _ => panic!("expected the rejection"),
    }
}

#[test]
fn mouse_transport_failures_are_reported() {
    let (mut m, _) = Mouse::status();
    match m.step(HidEvent::SendFailed("device gone".to_string())) {
        Step::Done(Err(e)) => assert_eq!(e, "mouse send: device gone"),
        _ => panic!("expected the send error"),
    }
    let (mut m, _) = Mouse::set_off();
    match m.step(HidEvent::ReceiveFailed("timeout".to_string())) {
        Step::Done(Err(e)) => assert_eq!(e, "mouse receive: timeout"),
        _ => panic!("expected the receive error"),
    }
}

#[test]
fn control_interface_is_interface_zero_of_the_elite() {
    assert!(Mouse::is_control_interface(0x1532, 0x005C, 0));
    assert!(!Mouse::is_control_interface(0x1532, 0x005C, 1));
    assert!(!Mouse::is_control_interface(0x1532, 0x005D, 0));
    assert!(!Mouse::is_control_interface(0x258A, 0x005C, 0));
}
