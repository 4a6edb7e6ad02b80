use vstd::prelude::*;
use crate::level::Level;

verus! {

/// How long a low key is given to settle before it is read again.
pub const DEBOUNCE_MS: u32 = 50;
/// Pause between two polls of the key.
pub const POLL_MS: u32 = 10;

/// Where the debouncer stands.
#[derive(Clone, Copy, Debug, PartialEq, Eq, Structural)]
pub enum KeyPhase {
    /// About to read the key.
    Poll,
    /// The key read low; about to read it again to confirm.
    Confirm,
}

/// What to do with the LED.
#[derive(Clone, Copy, Debug, PartialEq, Eq, Structural)]
pub enum LedDrive {
    Unchanged,
    Drive(Level),
}

/// Report a key press if `report_key_down`, then drive the LED, then wait
/// `delay_ms` milliseconds before the next read of the key.
#[derive(Clone, Copy, Debug, PartialEq, Eq, Structural)]
pub struct KeyCommand {
    pub report_key_down: bool,
    pub led: LedDrive,
    pub delay_ms: u32,
}

/// The next phase and command when the key reads `key` in `phase`. A key
/// that reads low is read again after `DEBOUNCE_MS`; if it is still low the
/// press is reported and the LED driven low. A key that reads high at a
/// poll drives the LED high.
pub open spec fn key_step(phase: KeyPhase, key: Level) -> (KeyPhase, KeyCommand) {
    match (phase, key) {
        (KeyPhase::Poll, Level::Low) => (
            KeyPhase::Confirm,
            KeyCommand { report_key_down: false, led: LedDrive::Unchanged, delay_ms: DEBOUNCE_MS },
        ),
        (KeyPhase::Poll, Level::High) => (
            KeyPhase::Poll,
            KeyCommand { report_key_down: false, led: LedDrive::Drive(Level::High), delay_ms: POLL_MS },
        ),
        (KeyPhase::Confirm, Level::Low) => (
            KeyPhase::Poll,
            KeyCommand { report_key_down: true, led: LedDrive::Drive(Level::Low), delay_ms: POLL_MS },
        ),
        (KeyPhase::Confirm, Level::High) => (
            KeyPhase::Poll,
            KeyCommand { report_key_down: false, led: LedDrive::Unchanged, delay_ms: POLL_MS },
        ),
    }
}

/// The key on PD10 and the LED that shows its presses.
pub struct KeyDebouncer {
    phase: KeyPhase,
}

impl View for KeyDebouncer {
    type V = KeyPhase;

    closed spec fn view(&self) -> KeyPhase {
        self.phase
    }
}

impl KeyDebouncer {
    /// A debouncer about to poll the key.
    pub fn new() -> (d: KeyDebouncer)
        ensures
            d@ == KeyPhase::Poll,
    {
        KeyDebouncer { phase: KeyPhase::Poll }
    }

    /// Where the debouncer stands.
    pub fn phase(&self) -> (p: KeyPhase)
        ensures
            p == self@,
    {
        self.phase
    }

    /// Takes a reading of the key and returns what to do.
    pub fn on_sample(&mut self, key: Level) -> (cmd: KeyCommand)
        ensures
            (final(self)@, cmd) == key_step(old(self)@, key),
    {
        match self.phase {
            KeyPhase::Poll => {
                if key == Level::Low {
                    self.phase = KeyPhase::Confirm;
                    KeyCommand { report_key_down: false, led: LedDrive::Unchanged, delay_ms: DEBOUNCE_MS }
                } else {
                    KeyCommand { report_key_down: false, led: LedDrive::Drive(Level::High), delay_ms: POLL_MS }
                }
            },
            KeyPhase::Confirm => {
                self.phase = KeyPhase::Poll;
                if key == Level::Low {
                    KeyCommand { report_key_down: true, led: LedDrive::Drive(Level::Low), delay_ms: POLL_MS }
                } else {
                    KeyCommand { report_key_down: false, led: LedDrive::Unchanged, delay_ms: POLL_MS }
                }
            },
        }
    }
}

/// From a poll, a press is reported exactly when two reads in a row are
/// low, and then on the second read; a single low read is never reported,
/// and after two reads the debouncer polls again.
pub proof fn lemma_press_needs_two_low_reads(first: Level, second: Level)
    ensures
        ({
            let (p1, c1) = key_step(KeyPhase::Poll, first);
            let (p2, c2) = key_step(p1, second);
            &&& !c1.report_key_down
            &&& (first == Level::Low ==> p1 == KeyPhase::Confirm && p2 == KeyPhase::Poll)
            &&& (first == Level::Low ==> (c2.report_key_down <==> second == Level::Low))
        }),
{
}

/// The LED is driven low exactly when a press is reported, and driven high
/// only when a poll finds the key high.
pub proof fn lemma_led_follows_key(phase: KeyPhase, key: Level)
    ensures
        key_step(phase, key).1.led == LedDrive::Drive(Level::Low) <==> key_step(phase, key).1.report_key_down,
        key_step(phase, key).1.led == LedDrive::Drive(Level::High) <==> (phase == KeyPhase::Poll && key == Level::High),
        key_step(phase, key).1.report_key_down ==> phase == KeyPhase::Confirm && key == Level::Low,
{
}

} // verus!
