use simplelog::text::{push_clock, push_decimal};
use simplelog::{Color, Destination, Level, LevelFilter};

fn decimal(n: u32) -> String {
    let mut out = String::new();
    push_decimal(&mut out, n);
    out
}

fn clock(seconds: u64) -> String {
    let mut out = String::new();
    push_clock(&mut out, seconds);
    out
}

#[test]
fn decimal_numerals() {
    assert_eq!(decimal(0), "0");
    assert_eq!(decimal(7), "7");
    assert_eq!(decimal(10), "10");
    assert_eq!(decimal(909), "909");
    assert_eq!(decimal(1_234_567_890), "1234567890");
    assert_eq!(decimal(u32::MAX), "4294967295");
    for n in [1u32, 9, 11, 99, 100, 101, 65_535, 1_000_000] {
        assert_eq!(decimal(n), n.to_string());
    }
}

#[test]
fn decimal_is_appended() {
    let mut out = String::from("line ");
    push_decimal(&mut out, 42);
    assert_eq!(out, "line 42");
}

#[test]
fn time_of_day() {
    assert_eq!(clock(0), "00:00:00");
    assert_eq!(clock(59), "00:00:59");
    assert_eq!(clock(60), "00:01:00");
    assert_eq!(clock(3_599), "00:59:59");
    assert_eq!(clock(3_600), "01:00:00");
    assert_eq!(clock(86_399), "23:59:59");
    assert_eq!(clock(86_400), "00:00:00");
    assert_eq!(clock(1_000_000_000), "01:46:40");
    assert_eq!(clock(u64::MAX), "07:00:15");
}

#[test]
fn clock_is_appended() {
    let mut out = String::from("[");
    push_clock(&mut out, 45_296);
    assert_eq!(out, "[12:34:56");
}

#[test]
fn ranks_of_levels_and_filters() {
    assert_eq!(Level::Error.ordinal(), 1);
    assert_eq!(Level::Warn.ordinal(), 2);
    assert_eq!(Level::Info.ordinal(), 3);
    assert_eq!(Level::Debug.ordinal(), 4);
    assert_eq!(Level::Trace.ordinal(), 5);
    assert_eq!(LevelFilter::Off.ordinal(), 0);
    assert_eq!(LevelFilter::Error.ordinal(), 1);
    assert_eq!(LevelFilter::Warn.ordinal(), 2);
    assert_eq!(LevelFilter::Info.ordinal(), 3);
    assert_eq!(LevelFilter::Debug.ordinal(), 4);
    assert_eq!(LevelFilter::Trace.ordinal(), 5);
}

#[test]
fn destinations_and_colors_by_level() {
    assert_eq!(Destination::of(Level::Error), Destination::Stderr);
    assert_eq!(Destination::of(Level::Warn), Destination::Stdout);
    assert_eq!(Destination::of(Level::Info), Destination::Stdout);
    assert_eq!(Destination::of(Level::Debug), Destination::Stdout);
    assert_eq!(Destination::of(Level::Trace), Destination::Stdout);
    assert_eq!(Color::of(Level::Error), Color::Red);
    assert_eq!(Color::of(Level::Warn), Color::Yellow);
    assert_eq!(Color::of(Level::Info), Color::Blue);
    assert_eq!(Color::of(Level::Debug), Color::Cyan);
    assert_eq!(Color::of(Level::Trace), Color::White);
}
