use vstd::prelude::*;
use crate::level::{toggled, Level};

verus! {

/// How long the LED stays at each level.
pub const BLINK_DELAY_MS: u32 = 1000;

/// Drive the LED to `level`, then wait `delay_ms` milliseconds.
#[derive(Clone, Copy, Debug, PartialEq, Eq, Structural)]
pub struct BlinkCommand {
    pub level: Level,
    pub delay_ms: u32,
}

/// The blinking LED: low for a second, high for a second, and again.
pub struct Blinky {
    next: Level,
}

impl View for Blinky {
    type V = Level;

    /// The level that the next step drives the LED to.
    closed spec fn view(&self) -> Level {
        self.next
    }
}

/// The level that step number `n` (counted from 0) of a new blinker drives.
pub open spec fn blinky_level(n: nat) -> Level
    decreases n,
{
    if n == 0 {
        Level::Low
    } else {
        toggled(blinky_level((n - 1) as nat))
    }
}

impl Blinky {
    /// A blinker whose first step drives the LED low.
    pub fn new() -> (b: Blinky)
        ensures
            b@ == blinky_level(0),
    {
        Blinky { next: Level::Low }
    }

    /// The next thing to do: drive the LED and wait.
    pub fn step(&mut self) -> (cmd: BlinkCommand)
        ensures
            cmd == (BlinkCommand { level: old(self)@, delay_ms: BLINK_DELAY_MS }),
            final(self)@ == toggled(old(self)@),
    {
        let level = self.next;
        self.next = match level {
            Level::Low => Level::High,
            Level::High => Level::Low,
        };
        BlinkCommand { level: level, delay_ms: BLINK_DELAY_MS }
    }
}

/// The LED is low on the even steps and high on the odd ones, so the
/// pattern repeats every two steps.
pub proof fn lemma_blinky_alternates(n: nat)
    ensures
        blinky_level(n) == (if n % 2 == 0 { Level::Low } else { Level::High }),
        blinky_level(n + 2) == blinky_level(n),
    decreases n,
{
    if n > 0 {
        lemma_blinky_alternates((n - 1) as nat);
    }
    assert(blinky_level(n + 2) == toggled(blinky_level(n + 1)));
}

} // verus!
