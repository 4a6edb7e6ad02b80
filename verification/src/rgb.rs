use vstd::prelude::*;
use crate::level::Level;

verus! {

/// Table value of a lit LED.
pub const LED_ON: i32 = 1;
/// Table value of a dark LED.
pub const LED_OFF: i32 = 0;
/// Number of entries in the blink table.
pub const BLINK_TAB_LEN: usize = 8;
/// How long each entry is shown.
pub const RGB_DELAY_MS: u32 = 500;

/// One entry of the blink table, in the order red, green, blue.
#[derive(Clone, Copy, Debug, PartialEq, Eq, Structural)]
pub struct BlinkEntry {
    pub r: i32,
    pub g: i32,
    pub b: i32,
}

/// The blink table: the eight on/off combinations of the three LEDs.
pub open spec fn blink_tab(i: int) -> BlinkEntry {
    if i == 0 {
        BlinkEntry { r: LED_ON, g: LED_ON, b: LED_ON }
    } else if i == 1 {
        BlinkEntry { r: LED_OFF, g: LED_ON, b: LED_ON }
    } else if i == 2 {
        BlinkEntry { r: LED_ON, g: LED_OFF, b: LED_ON }
    } else if i == 3 {
        BlinkEntry { r: LED_ON, g: LED_ON, b: LED_OFF }
    } else if i == 4 {
        BlinkEntry { r: LED_OFF, g: LED_OFF, b: LED_ON }
    } else if i == 5 {
        BlinkEntry { r: LED_ON, g: LED_OFF, b: LED_OFF }
    } else if i == 6 {
        BlinkEntry { r: LED_OFF, g: LED_ON, b: LED_OFF }
    } else {
        BlinkEntry { r: LED_OFF, g: LED_OFF, b: LED_OFF }
    }
}

/// Entry `i` of the blink table.
pub fn blink_tab_entry(i: usize) -> (e: BlinkEntry)
    requires
        i < BLINK_TAB_LEN,
    ensures
        e == blink_tab(i as int),
{
    let (r, g, b): (i32, i32, i32) = match i {
        0 => (LED_ON, LED_ON, LED_ON),
        1 => (LED_OFF, LED_ON, LED_ON),
        2 => (LED_ON, LED_OFF, LED_ON),
        3 => (LED_ON, LED_ON, LED_OFF),
        4 => (LED_OFF, LED_OFF, LED_ON),
        5 => (LED_ON, LED_OFF, LED_OFF),
        6 => (LED_OFF, LED_ON, LED_OFF),
        _ => (LED_OFF, LED_OFF, LED_OFF),
    };
    BlinkEntry { r: r, g: g, b: b }
}

/// The level that a table value drives its LED to: high when it is `LED_ON`.
pub open spec fn led_level(v: i32) -> Level {
    if v == LED_ON {
        Level::High
    } else {
        Level::Low
    }
}

/// Drive the three LEDs, then wait `delay_ms` milliseconds.
#[derive(Clone, Copy, Debug, PartialEq, Eq, Structural)]
pub struct RgbCommand {
    pub red: Level,
    pub green: Level,
    pub blue: Level,
    pub delay_ms: u32,
}

/// What entry `i` of the table makes the LEDs do.
pub open spec fn rgb_command(i: int) -> RgbCommand {
    RgbCommand {
        red: led_level(blink_tab(i).r),
        green: led_level(blink_tab(i).g),
        blue: led_level(blink_tab(i).b),
        delay_ms: RGB_DELAY_MS,
    }
}

/// The RGB LED stepping through the blink table.
pub struct RgbCycle {
    index: usize,
}

impl View for RgbCycle {
    type V = nat;

    /// The table entry that the next step shows.
    closed spec fn view(&self) -> nat {
        self.index as nat
    }
}

impl RgbCycle {
    #[verifier::type_invariant]
    spec fn index_in_table(&self) -> bool {
        self.index < BLINK_TAB_LEN
    }

    /// A cycle that starts at the first table entry.
    pub fn new() -> (c: RgbCycle)
        ensures
            c@ == 0,
    {
        RgbCycle { index: 0 }
    }

    /// The table entry that the next step shows.
    pub fn index(&self) -> (i: usize)
        ensures
            i == self@,
            i < BLINK_TAB_LEN,
    {
        proof { use_type_invariant(self); }
        self.index
    }

    /// Shows the current table entry and moves to the next one, wrapping
    /// from the last entry to the first.
    pub fn step(&mut self) -> (cmd: RgbCommand)
        ensures
            old(self)@ < BLINK_TAB_LEN,
            cmd == rgb_command(old(self)@ as int),
            final(self)@ == (old(self)@ + 1) % (BLINK_TAB_LEN as nat),
    {
        proof { use_type_invariant(&*self); }
        let e = blink_tab_entry(self.index);
        let red = if e.r == LED_ON { Level::High } else { Level::Low };
        let green = if e.g == LED_ON { Level::High } else { Level::Low };
        let blue = if e.b == LED_ON { Level::High } else { Level::Low };
        let mut next: usize = self.index + 1;
        if next == BLINK_TAB_LEN {
            next = 0;
        }
        self.index = next;
        RgbCommand { red: red, green: green, blue: blue, delay_ms: RGB_DELAY_MS }
    }
}

/// The table entry that step number `n` (counted from 0) of a new cycle shows.
pub open spec fn rgb_index(n: nat) -> nat
    decreases n,
{
    if n == 0 {
        0
    } else {
        (rgb_index((n - 1) as nat) + 1) % (BLINK_TAB_LEN as nat)
    }
}

/// Step `n` shows entry `n mod 8`: the index never leaves the table and the
/// pattern repeats every eight steps.
pub proof fn lemma_rgb_period(n: nat)
    ensures
        rgb_index(n) == n % 8,
        rgb_index(n) < BLINK_TAB_LEN,
        rgb_index(n + 8) == rgb_index(n),
{
    lemma_rgb_index_mod(n);
    lemma_rgb_index_mod(n + 8);
    assert((n + 8) % 8 == n % 8);
}

proof fn lemma_rgb_index_mod(n: nat)
    ensures
        rgb_index(n) == n % 8,
    decreases n,
{
    if n > 0 {
        lemma_rgb_index_mod((n - 1) as nat);
    }
}

/// Each table entry lights each LED or leaves it dark, and no two entries
/// are alike: one round of the table shows every on/off combination of the
/// three LEDs exactly once.
pub proof fn lemma_rgb_shows_every_combination(i: int, j: int)
    requires
        0 <= i < BLINK_TAB_LEN,
        0 <= j < BLINK_TAB_LEN,
    ensures
        blink_tab(i).r == LED_ON || blink_tab(i).r == LED_OFF,
        blink_tab(i).g == LED_ON || blink_tab(i).g == LED_OFF,
        blink_tab(i).b == LED_ON || blink_tab(i).b == LED_OFF,
        i != j ==> rgb_command(i) != rgb_command(j),
{
}


/// The value of LED `c` (0 red, 1 green, 2 blue) in entry `e`.
pub open spec fn led_value(e: BlinkEntry, c: int) -> i32 {
    if c == 0 {
        e.r
    } else if c == 1 {
        e.g
    } else {
        e.b
    }
}

/// The order of the table: first all three LEDs lit; then two lit, with red,
/// green and blue dark in turn; then one lit, blue, red and green in turn;
/// finally all dark.
pub proof fn lemma_blink_table_order(i: int, c: int)
    requires
        0 <= i < BLINK_TAB_LEN,
        0 <= c < 3,
    ensures
        led_value(blink_tab(i), c) == 1 || led_value(blink_tab(i), c) == 0,
        (led_value(blink_tab(i), c) == 1) <==> (i == 0 || (1 <= i <= 3 && c != i - 1) || (4 <= i <= 6 && c
            == (i - 2) % 3)),
{
}
} // verus!
