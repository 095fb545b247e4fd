use simplelog::{Color, Rendering, Step};

fn steps() -> Vec<Step> {
    vec![
        Step::Foreground(Color::Red),
        Step::Write("ERROR ".to_string()),
        Step::Reset,
        Step::Write("boom\n".to_string()),
        Step::Flush,
    ]
}

#[test]
fn steps_come_in_order_when_all_go_well() {
    let mut run = Rendering::new(steps());
    let mut seen = Vec::new();
    loop {
        let step = match run.next() {
            Some(step) => step.clone(),
            None => break,
        };
        seen.push(step);
        run.settle(true);
    }
    assert_eq!(seen, steps());
    assert!(run.is_complete());
    assert!(!run.has_failed());
}

#[test]
fn a_failure_drops_the_rest() {
    let mut run = Rendering::new(steps());
    assert_eq!(run.next(), Some(&Step::Foreground(Color::Red)));
    run.settle(true);
    assert_eq!(run.next(), Some(&Step::Write("ERROR ".to_string())));
    run.settle(false);
    assert_eq!(run.next(), None);
    assert!(run.has_failed());
    assert!(!run.is_complete());
    run.settle(true);
    assert_eq!(run.next(), None);
    assert!(run.has_failed());
    assert!(!run.is_complete());
}

#[test]
fn asking_twice_gives_the_same_step() {
    let run = Rendering::new(steps());
    assert_eq!(run.next(), Some(&Step::Foreground(Color::Red)));
    assert_eq!(run.next(), Some(&Step::Foreground(Color::Red)));
    assert!(!run.is_complete());
}

#[test]
fn nothing_to_render_is_complete_at_once() {
    let mut run = Rendering::new(Vec::new());
    assert_eq!(run.next(), None);
    assert!(run.is_complete());
    run.settle(false);
    assert!(run.is_complete());
    assert!(!run.has_failed());
}

#[test]
fn a_failure_of_the_last_step_is_a_failure() {
    let mut run = Rendering::new(vec![Step::Flush]);
    run.settle(false);
    assert_eq!(run.next(), None);
    assert!(run.has_failed());
    assert!(!run.is_complete());
}
