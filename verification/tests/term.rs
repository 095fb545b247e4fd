use simplelog::{
    Color, Config, Destination, Level, LevelFilter, Record, Step, TermLogError, TermLogger,
};

fn record(level: Level, target: &str, message: &str) -> Record {
    Record {
        level,
        target: target.to_string(),
        args: message.to_string(),
        file: None,
        line: None,
        time: 0,
    }
}

fn everything() -> Config {
    Config {
        time: Some(Level::Trace),
        level: Some(Level::Trace),
        target: Some(Level::Trace),
        location: Some(Level::Trace),
    }
}

fn logger(filter: LevelFilter, config: Config) -> Box<TermLogger<&'static str, &'static str>> {
    TermLogger::new(filter, config, Some("stderr"), Some("stdout")).unwrap()
}

const LEVELS: [Level; 5] = [Level::Error, Level::Warn, Level::Info, Level::Debug, Level::Trace];

#[test]
fn error_record_on_a_terminal_has_time_and_red_label() {
    let config = Config {
        time: Some(Level::Warn),
        level: Some(Level::Trace),
        target: Some(Level::Trace),
        location: None,
    };
    let logger = logger(LevelFilter::Info, config);
    let emission = logger.log(&record(Level::Error, "net", "listening")).unwrap();
    assert_eq!(emission.destination, Destination::Stderr);
    assert_eq!(
        emission.steps,
        vec![
            Step::Write("[00:00:00] ".to_string()),
            Step::Foreground(Color::Red),
            Step::Write("ERROR ".to_string()),
            Step::Reset,
            Step::Write("net: ".to_string()),
            Step::Write("listening\n".to_string()),
            Step::Flush,
        ]
    );
}

#[test]
fn info_record_on_a_terminal_leaves_out_the_time() {
    let config = Config {
        time: Some(Level::Warn),
        level: Some(Level::Trace),
        target: Some(Level::Trace),
        location: None,
    };
    let logger = logger(LevelFilter::Info, config);
    let emission = logger.log(&record(Level::Info, "net", "listening")).unwrap();
    assert_eq!(emission.destination, Destination::Stdout);
    assert_eq!(
        emission.steps,
        vec![
            Step::Foreground(Color::Blue),
            Step::Write("INFO ".to_string()),
            Step::Reset,
            Step::Write("net: ".to_string()),
            Step::Write("listening\n".to_string()),
            Step::Flush,
        ]
    );
}

#[test]
fn each_severity_has_its_color() {
    let expected = [
        (Level::Error, Color::Red, "ERROR "),
        (Level::Warn, Color::Yellow, "WARN "),
        (Level::Info, Color::Blue, "INFO "),
        (Level::Debug, Color::Cyan, "DEBUG "),
        (Level::Trace, Color::White, "TRACE "),
    ];
    let config = Config { time: None, level: Some(Level::Trace), target: None, location: None };
    let logger = logger(LevelFilter::Trace, config);
    for (level, color, label) in expected {
        assert_eq!(Color::of(level), color);
        let steps = logger.try_log_term(&record(level, "t", "m"));
        assert_eq!(
            steps,
            vec![
                Step::Foreground(color),
                Step::Write(label.to_string()),
                Step::Reset,
                Step::Write("m\n".to_string()),
                Step::Flush,
            ]
        );
    }
}

#[test]
fn without_a_label_no_color_is_set() {
    let config = Config { time: None, level: None, target: Some(Level::Trace), location: None };
    let logger = logger(LevelFilter::Trace, config);
    let steps = logger.try_log_term(&record(Level::Warn, "t", "m"));
    assert_eq!(
        steps,
        vec![Step::Write("t: ".to_string()), Step::Write("m\n".to_string()), Step::Flush]
    );
}

#[test]
fn all_fields_on_a_terminal() {
    let logger = logger(LevelFilter::Trace, everything());
    let mut r = record(Level::Debug, "cache", "miss");
    r.file = Some("cache.rs".to_string());
    r.line = Some(42);
    r.time = 45_296;
    let emission = logger.log(&r).unwrap();
    assert_eq!(emission.destination, Destination::Stdout);
    assert_eq!(
        emission.steps,
        vec![
            Step::Write("[12:34:56] ".to_string()),
            Step::Foreground(Color::Cyan),
            Step::Write("DEBUG ".to_string()),
            Step::Reset,
            Step::Write("cache: ".to_string()),
            Step::Write("cache.rs:42 - ".to_string()),
            Step::Write("miss\n".to_string()),
            Step::Flush,
        ]
    );
}

fn colors_in_force(steps: &[Step]) -> Vec<(Option<Color>, String)> {
    let mut color = None;
    let mut texts = Vec::new();
    for step in steps {
        match step {
            Step::Foreground(c) => color = Some(*c),
            Step::Reset => color = None,
            Step::Write(t) => texts.push((color, t.clone())),
            Step::Flush => {}
        }
    }
    assert_eq!(color, None);
    texts
}

#[test]
fn colors_do_not_leak_between_records() {
    let logger = logger(LevelFilter::Trace, everything());
    let mut steps = logger.try_log_term(&record(Level::Error, "a", "first"));
    steps.extend(logger.try_log_term(&record(Level::Info, "b", "second")));
    let texts = colors_in_force(&steps);
    assert_eq!(
        texts,
        vec![
            (None, "[00:00:00] ".to_string()),
            (Some(Color::Red), "ERROR ".to_string()),
            (None, "a: ".to_string()),
            (None, "<unknown>:<unknown> - ".to_string()),
            (None, "first\n".to_string()),
            (None, "[00:00:00] ".to_string()),
            (Some(Color::Blue), "INFO ".to_string()),
            (None, "b: ".to_string()),
            (None, "<unknown>:<unknown> - ".to_string()),
            (None, "second\n".to_string()),
        ]
    );
}

#[test]
fn terminal_routing_and_filter() {
    let logger = logger(LevelFilter::Warn, everything());
    assert_eq!(
        logger.log(&record(Level::Error, "t", "m")).unwrap().destination,
        Destination::Stderr
    );
    assert_eq!(
        logger.log(&record(Level::Warn, "t", "m")).unwrap().destination,
        Destination::Stdout
    );
    for level in [Level::Info, Level::Debug, Level::Trace] {
        assert!(!logger.enabled(level));
        assert_eq!(logger.log(&record(level, "t", "m")), None);
    }
    assert!(logger.enabled(Level::Error));
    assert!(logger.enabled(Level::Warn));
}

#[test]
fn every_terminal_emission_ends_with_a_flush() {
    let logger = logger(LevelFilter::Trace, everything());
    for level in LEVELS {
        let emission = logger.log(&record(level, "t", "m")).unwrap();
        assert_eq!(emission.steps.last(), Some(&Step::Flush));
        let flushes = emission.steps.iter().filter(|s| **s == Step::Flush).count();
        assert_eq!(flushes, 1);
    }
}

#[test]
fn no_logger_without_both_terminals() {
    let config = everything();
    assert!(TermLogger::<u8, u8>::new(LevelFilter::Info, config, None, None).is_none());
    assert!(TermLogger::<u8, u8>::new(LevelFilter::Info, config, Some(1), None).is_none());
    assert!(TermLogger::<u8, u8>::new(LevelFilter::Info, config, None, Some(2)).is_none());
    let logger = TermLogger::<u8, u8>::new(LevelFilter::Info, config, Some(1), Some(2)).unwrap();
    assert_eq!(*logger.stderr(), 1);
    assert_eq!(*logger.stdout(), 2);
    assert_eq!(logger.level(), LevelFilter::Info);
    assert_eq!(logger.config(), Some(&config));
}

#[test]
fn init_reports_the_missing_terminal() {
    let config = everything();
    for (stderr, stdout) in [(None, None), (Some(1u8), None), (None, Some(2u8))] {
        match TermLogger::init(LevelFilter::Info, config, stderr, stdout) {
            Err(TermLogError::Term) => {}
            Err(other) => panic!("unexpected error {:?}", other),
            Ok(_) => panic!("a logger was made without its terminals"),
        }
    }
    let logger = TermLogger::init(LevelFilter::Debug, config, Some(1u8), Some(2u8)).unwrap();
    assert_eq!(*logger.stderr(), 1);
    assert_eq!(*logger.stdout(), 2);
    assert_eq!(logger.level(), LevelFilter::Debug);
    logger.flush();
}

#[test]
fn plain_and_terminal_write_the_same_text() {
    let config = everything();
    let plain = simplelog::SimpleLogger::new(LevelFilter::Trace, config);
    let term = logger(LevelFilter::Trace, config);
    for level in LEVELS {
        let mut r = record(level, "core", "ready");
        r.line = Some(9);
        let a = plain.log(&r).unwrap();
        let b = term.log(&r).unwrap();
        assert_eq!(a.destination, b.destination);
        let writes: Vec<Step> =
            b.steps.into_iter().filter(|s| matches!(s, Step::Write(_))).collect();
        assert_eq!(a.steps, writes);
    }
}
