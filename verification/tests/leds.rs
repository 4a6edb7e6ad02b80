use pandora::blinky::{BlinkCommand, Blinky, BLINK_DELAY_MS};
use pandora::rgb::{blink_tab_entry, BlinkEntry, RgbCycle, LED_OFF, LED_ON, RGB_DELAY_MS};
use pandora::Level;

#[test]
fn blinky_alternates_low_and_high_each_second() {
    let mut b = Blinky::new();
    for i in 0..6 {
        let expected = if i % 2 == 0 { Level::Low } else { Level::High };
        assert_eq!(b.step(), BlinkCommand { level: expected, delay_ms: BLINK_DELAY_MS });
    }
    assert_eq!(BLINK_DELAY_MS, 1000);
}

#[test]
fn rgb_first_entry_lights_all_and_last_none() {
    assert_eq!(blink_tab_entry(0), BlinkEntry { r: LED_ON, g: LED_ON, b: LED_ON });
    assert_eq!(blink_tab_entry(7), BlinkEntry { r: LED_OFF, g: LED_OFF, b: LED_OFF });
    assert_eq!(blink_tab_entry(1), BlinkEntry { r: LED_OFF, g: LED_ON, b: LED_ON });
}

#[test]
fn rgb_cycle_shows_every_combination_once_per_round() {
    let mut c = RgbCycle::new();
    let mut seen = Vec::new();
    for i in 0..8 {
        assert_eq!(c.index(), i);
        let cmd = c.step();
        assert_eq!(cmd.delay_ms, RGB_DELAY_MS);
        let e = blink_tab_entry(i);
        let lvl = |v: i32| if v == LED_ON { Level::High } else { Level::Low };
        assert_eq!((cmd.red, cmd.green, cmd.blue), (lvl(e.r), lvl(e.g), lvl(e.b)));
        assert!(!seen.contains(&(cmd.red, cmd.green, cmd.blue)));
        seen.push((cmd.red, cmd.green, cmd.blue));
    }
    assert_eq!(seen.len(), 8);
    assert_eq!(c.index(), 0);
    let first_again = c.step();
    assert_eq!((first_again.red, first_again.green, first_again.blue), (Level::High, Level::High, Level::High));
}
