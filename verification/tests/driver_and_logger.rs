use nirinit::driver::{Driver, DriverAction, DriverPhase, TICK_MS};
use nirinit::logger::{enable_debug, init, paint, AnsiColor, Level, LevelFilter};

#[test]
fn driver_restores_first() {
    let (d, action) = Driver::start(300);
    assert_eq!(action, DriverAction::Restore);
    assert_eq!(d, Driver { save_interval: 300, last_save: 0, phase: DriverPhase::Restoring });
    assert_eq!(TICK_MS, 100);
}

#[test]
fn driver_stops_when_restore_fails() {
    let (d, _) = Driver::start(300);
    let (d, action) = d.step(50, false, false);
    assert_eq!(action, DriverAction::Fail);
    assert_eq!(d.phase, DriverPhase::Stopped);
    assert_eq!(d.step(60, false, true).1, DriverAction::Exit);
}

#[test]
fn driver_saves_when_interval_has_passed() {
    let (d, _) = Driver::start(2);
    let (mut d, action) = d.step(1_000, false, true);
    assert_eq!(action, DriverAction::Sleep);
    assert_eq!(d.last_save, 1_000);
    let mut now = 1_000;
    let mut sleeps = 1;
    loop {
        now += 100;
        let (next, action) = d.step(now, false, true);
        d = next;
        if action != DriverAction::Sleep {
            assert_eq!(action, DriverAction::Save);
            break;
        }
        sleeps += 1;
    }
    assert_eq!(now, 3_000);
    assert_eq!(sleeps, 20);
    assert!(!d.is_save_due(2_999));
    let (d, action) = d.step(3_040, false, false);
    assert_eq!(action, DriverAction::Sleep);
    assert_eq!(d.last_save, 3_040);
    assert!(!d.is_save_due(5_039));
    assert!(d.is_save_due(5_040));
}

#[test]
fn driver_saves_once_more_at_shutdown() {
    let (d, _) = Driver::start(300);
    let (d, action) = d.step(0, false, true);
    assert_eq!(action, DriverAction::Sleep);
    let (d, action) = d.step(100, true, true);
    assert_eq!(action, DriverAction::FinalSave);
    let (d, action) = d.step(150, true, false);
    assert_eq!(action, DriverAction::Exit);
    assert_eq!(d.phase, DriverPhase::Stopped);
}

#[test]
fn driver_shutdown_during_restore() {
    let (d, _) = Driver::start(300);
    let (_, action) = d.step(10, true, true);
    assert_eq!(action, DriverAction::FinalSave);
}

#[test]
fn driver_due_save_comes_before_shutdown() {
    let (d, _) = Driver::start(1);
    let (d, _) = d.step(0, false, true);
    let (d, action) = d.step(1_000, true, true);
    assert_eq!(action, DriverAction::Save);
    let (d, action) = d.step(1_010, true, false);
    assert_eq!(action, DriverAction::FinalSave);
    assert_eq!(d.step(1_020, true, false).1, DriverAction::Exit);
}

#[test]
fn driver_with_huge_interval_never_saves() {
    let (d, _) = Driver::start(u64::MAX);
    let (d, _) = d.step(0, false, true);
    assert!(!d.is_save_due(u64::MAX));
    assert_eq!(d.step(u64::MAX, false, true).1, DriverAction::Sleep);
}

#[test]
fn driver_clock_that_goes_back_counts_as_no_time() {
    let (d, _) = Driver::start(1);
    let (d, _) = d.step(5_000, false, true);
    assert!(!d.is_save_due(10));
    let (zero, _) = Driver::start(0);
    let (zero, _) = zero.step(5_000, false, true);
    assert!(zero.is_save_due(10));
}

#[test]
fn paint_wraps_text_in_escape_sequences() {
    assert_eq!(paint(Some(AnsiColor::Red), "Error:"), "\x1b[31mError:\x1b[0m");
    assert_eq!(paint(Some(AnsiColor::Black), ""), "\x1b[30m\x1b[0m");
    assert_eq!(paint(Some(AnsiColor::White), "w"), "\x1b[37mw\x1b[0m");
    assert_eq!(paint(Some(AnsiColor::BrightBlack), "x"), "\x1b[90mx\x1b[0m");
    assert_eq!(paint(Some(AnsiColor::BrightWhite), "x"), "\x1b[97mx\x1b[0m");
    assert_eq!(paint(None, "plain"), "plain");
}

#[test]
fn paint_knows_every_colour() {
    let colours = [
        AnsiColor::Black,
        AnsiColor::Red,
        AnsiColor::Green,
        AnsiColor::Yellow,
        AnsiColor::Blue,
        AnsiColor::Magenta,
        AnsiColor::Cyan,
        AnsiColor::White,
        AnsiColor::BrightBlack,
        AnsiColor::BrightRed,
        AnsiColor::BrightGreen,
        AnsiColor::BrightYellow,
        AnsiColor::BrightBlue,
        AnsiColor::BrightMagenta,
        AnsiColor::BrightCyan,
        AnsiColor::BrightWhite,
    ];
    for (i, colour) in colours.iter().enumerate() {
        assert_eq!(colour.palette_index() as usize, i);
        let expected = if i < 8 {
            format!("\x1b[3{}mt\x1b[0m", i)
        } else {
            format!("\x1b[9{}mt\x1b[0m", i - 8)
        };
        assert_eq!(paint(Some(*colour), "t"), expected);
    }
}

#[test]
fn logger_starts_at_info_and_can_go_to_debug() {
    let mut logger = init();
    assert_eq!(logger.max_level, LevelFilter::Info);
    enable_debug(&mut logger);
    assert_eq!(logger.max_level, LevelFilter::Debug);
    assert!(logger.enabled(Level::Trace));
}

#[test]
fn logger_lines() {
    let logger = init();
    assert_eq!(logger.log(Level::Error, None, "boom"), "\x1b[31mError:\x1b[0m boom");
    assert_eq!(logger.log(Level::Warn, Some("m"), "careful"), "\x1b[33mWarning:\x1b[0m careful");
    assert_eq!(logger.log(Level::Info, None, "hello"), "\x1b[32mInfo:\x1b[0m hello");
    assert_eq!(logger.log(Level::Debug, None, "x = 1"), "\x1b[34mDebug:\x1b[0m x = 1");
    assert_eq!(logger.log(Level::Trace, Some("nirinit::saver"), "t"), "[nirinit::saver] t");
    assert_eq!(logger.log(Level::Trace, None, "t"), "[] t");
}
