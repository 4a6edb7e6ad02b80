use pandora::echo::{Echo, SerialCommand, SerialEvent};
use pandora::key::{KeyCommand, KeyDebouncer, KeyPhase, LedDrive, DEBOUNCE_MS, POLL_MS};
use pandora::Level;

#[test]
fn key_press_is_reported_after_two_low_reads() {
    let mut k = KeyDebouncer::new();
    assert_eq!(
        k.on_sample(Level::Low),
        KeyCommand { report_key_down: false, led: LedDrive::Unchanged, delay_ms: DEBOUNCE_MS }
    );
    assert_eq!(k.phase(), KeyPhase::Confirm);
    assert_eq!(
        k.on_sample(Level::Low),
        KeyCommand { report_key_down: true, led: LedDrive::Drive(Level::Low), delay_ms: POLL_MS }
    );
    assert_eq!(k.phase(), KeyPhase::Poll);
}

#[test]
fn key_bounce_is_not_reported() {
    let mut k = KeyDebouncer::new();
    k.on_sample(Level::Low);
    assert_eq!(
        k.on_sample(Level::High),
        KeyCommand { report_key_down: false, led: LedDrive::Unchanged, delay_ms: POLL_MS }
    );
    assert_eq!(k.phase(), KeyPhase::Poll);
}

#[test]
fn released_key_drives_led_high() {
    let mut k = KeyDebouncer::new();
    assert_eq!(
        k.on_sample(Level::High),
        KeyCommand { report_key_down: false, led: LedDrive::Drive(Level::High), delay_ms: POLL_MS }
    );
    assert_eq!(k.phase(), KeyPhase::Poll);
}

#[test]
fn echo_writes_back_each_byte_in_order() {
    let mut e = Echo::new();
    assert_eq!(e.command(), SerialCommand::Read);
    assert_eq!(e.on_event(SerialEvent::WouldBlock), SerialCommand::Read);
    assert_eq!(e.on_event(SerialEvent::Received(b'a')), SerialCommand::Write(b'a'));
    assert_eq!(e.on_event(SerialEvent::WouldBlock), SerialCommand::Write(b'a'));
    assert_eq!(e.on_event(SerialEvent::Sent), SerialCommand::Read);
    assert_eq!(e.on_event(SerialEvent::Received(b'b')), SerialCommand::Write(b'b'));
    assert_eq!(e.on_event(SerialEvent::Sent), SerialCommand::Read);
}

#[test]
fn echo_drops_a_failed_write_and_goes_on() {
    let mut e = Echo::new();
    e.on_event(SerialEvent::Received(7));
    assert_eq!(e.on_event(SerialEvent::Failed), SerialCommand::Read);
    assert_eq!(e.on_event(SerialEvent::Received(8)), SerialCommand::Write(8));
}

#[test]
fn echo_halts_on_failed_read() {
    let mut e = Echo::new();
    assert_eq!(e.on_event(SerialEvent::Failed), SerialCommand::Halt);
    assert_eq!(e.on_event(SerialEvent::Received(1)), SerialCommand::Halt);
    assert_eq!(e.command(), SerialCommand::Halt);
}
