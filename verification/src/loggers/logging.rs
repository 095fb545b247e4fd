//! The formatter shared by the emitters: which fields of a record are
//! rendered, in what order, and as what text.

use vstd::prelude::*;
use vstd::string::*;

use crate::config::{Config, Level, LevelFilter};
use crate::emission::{color_of, route, views, EmissionView, Step, StepView};
use crate::record::{Record, RecordView};
use crate::text::{clock, decimal, push_clock, push_decimal};

verus! {

/// Whether a field with this threshold is shown on a record of severity
/// `level`: the field has a threshold, and the record is at least as severe.
pub open spec fn shows(threshold: Option<Level>, level: Level) -> bool {
    match threshold {
        Some(t) => level.rank() <= t.rank(),
        None => false,
    }
}

/// Whether a record of severity `level` passes `filter`: it is at least as
/// severe as the least severe level that the filter lets through.
pub open spec fn passes(level: Level, filter: LevelFilter) -> bool {
    level.rank() <= filter.rank()
}

/// The label of a severity.
pub open spec fn label(level: Level) -> Seq<char> {
    match level {
        Level::Error => "ERROR"@,
        Level::Warn => "WARN"@,
        Level::Info => "INFO"@,
        Level::Debug => "DEBUG"@,
        Level::Trace => "TRACE"@,
    }
}

/// The time field: the time of day between square brackets.
pub open spec fn time_field(r: RecordView) -> Seq<char> {
    "["@ + clock(r.time as nat) + "] "@
}

/// The severity field: the label of the record's severity.
pub open spec fn level_field(r: RecordView) -> Seq<char> {
    label(r.level) + " "@
}

/// The target field: the target and a colon.
pub open spec fn target_field(r: RecordView) -> Seq<char> {
    r.target + ": "@
}

/// The location field: file and line with a colon between them, each
/// `<unknown>` where the record has none, and a dash.
pub open spec fn location_field(r: RecordView) -> Seq<char> {
    (match r.file {
        Some(f) => f,
        None => "<unknown>"@,
    }) + ":"@ + (match r.line {
        Some(l) => decimal(l as nat),
        None => "<unknown>"@,
    }) + " - "@
}

/// The message field: the message and the line terminator.
pub open spec fn args_field(r: RecordView) -> Seq<char> {
    r.args + "\n"@
}

/// The line that renders record `r` under configuration `c`: the fields that
/// `c` shows at the record's severity, in the order time, severity, target,
/// location, and then the message.
pub open spec fn line(c: Config, r: RecordView) -> Seq<char> {
    (if shows(c.time, r.level) {
        time_field(r)
    } else {
        Seq::empty()
    }) + (if shows(c.level, r.level) {
        level_field(r)
    } else {
        Seq::empty()
    }) + (if shows(c.target, r.level) {
        target_field(r)
    } else {
        Seq::empty()
    }) + (if shows(c.location, r.level) {
        location_field(r)
    } else {
        Seq::empty()
    }) + args_field(r)
}

/// `steps` where `shown` holds, no step otherwise.
pub open spec fn only_if(shown: bool, steps: Seq<StepView>) -> Seq<StepView> {
    if shown {
        steps
    } else {
        Seq::empty()
    }
}

/// The steps that render record `r` on a plain stream: one write for each
/// field shown, then one for the message.
pub open spec fn plain_steps(c: Config, r: RecordView) -> Seq<StepView> {
    only_if(shows(c.time, r.level), seq![StepView::Write(time_field(r))])
        + only_if(shows(c.level, r.level), seq![StepView::Write(level_field(r))])
        + only_if(shows(c.target, r.level), seq![StepView::Write(target_field(r))])
        + only_if(shows(c.location, r.level), seq![StepView::Write(location_field(r))])
        + seq![StepView::Write(args_field(r))]
}

/// The steps that render record `r` on a color terminal: as on a plain
/// stream, with the severity field between the color of the severity and a
/// reset, and with a flush at the end.
pub open spec fn term_steps(c: Config, r: RecordView) -> Seq<StepView> {
    only_if(shows(c.time, r.level), seq![StepView::Write(time_field(r))])
        + only_if(
        shows(c.level, r.level),
        seq![
            StepView::Foreground(color_of(r.level)),
            StepView::Write(level_field(r)),
            StepView::Reset,
        ],
    ) + only_if(shows(c.target, r.level), seq![StepView::Write(target_field(r))])
        + only_if(shows(c.location, r.level), seq![StepView::Write(location_field(r))])
        + seq![StepView::Write(args_field(r)), StepView::Flush]
}

/// What an emitter with this filter and this configuration hands back for
/// record `r`: nothing where the record does not pass the filter, else the
/// stream for its severity and the steps that render it, for a color terminal
/// where `on_terminal` holds and for a plain stream otherwise.
pub open spec fn emitted(filter: LevelFilter, c: Config, r: RecordView, on_terminal: bool) -> Option<
    EmissionView,
> {
    if passes(r.level, filter) {
        Some(
            EmissionView {
                destination: route(r.level),
                steps: if on_terminal {
                    term_steps(c, r)
                } else {
                    plain_steps(c, r)
                },
            },
        )
    } else {
        None
    }
}

/// Whether a record of severity `level` is at least as severe as `threshold`.
pub fn reaches(level: Level, threshold: Level) -> (r: bool)
    ensures
        r == shows(Some(threshold), level),
{
    level.ordinal() <= threshold.ordinal()
}

/// Whether a record of severity `level` passes `filter`.
pub fn lets_through(filter: LevelFilter, level: Level) -> (r: bool)
    ensures
        r == passes(level, filter),
{
    level.ordinal() <= filter.ordinal()
}

/// Appends one step.
pub fn put(steps: &mut Vec<Step>, step: Step)
    ensures
        views(final(steps)@) == views(old(steps)@).push(step@),
{
    steps.push(step);
    assert(views(steps@) =~= views(old(steps)@).push(step@));
}

/// Appends the write of the time field.
pub fn write_time(record: &Record, steps: &mut Vec<Step>)
    ensures
        views(final(steps)@) == views(old(steps)@).push(StepView::Write(time_field(record@))),
{
    let mut text = String::new();
    text.append("[");
    push_clock(&mut text, record.time);
    text.append("] ");
    assert(text@ =~= time_field(record@));
    put(steps, Step::Write(text));
}

/// Appends the write of the severity field.
pub fn write_level(record: &Record, steps: &mut Vec<Step>)
    ensures
        views(final(steps)@) == views(old(steps)@).push(StepView::Write(level_field(record@))),
{
    let mut text = String::new();
    match record.level {
        Level::Error => text.append("ERROR"),
        Level::Warn => text.append("WARN"),
        Level::Info => text.append("INFO"),
        Level::Debug => text.append("DEBUG"),
        Level::Trace => text.append("TRACE"),
    }
    text.append(" ");
    assert(text@ =~= level_field(record@));
    put(steps, Step::Write(text));
}

/// Appends the write of the target field.
pub fn write_target(record: &Record, steps: &mut Vec<Step>)
    ensures
        views(final(steps)@) == views(old(steps)@).push(StepView::Write(target_field(record@))),
{
    let mut text = String::new();
    text.append(record.target.as_str());
    text.append(": ");
    assert(text@ =~= target_field(record@));
    put(steps, Step::Write(text));
}

/// Appends the write of the location field.
pub fn write_location(record: &Record, steps: &mut Vec<Step>)
    ensures
        views(final(steps)@) == views(old(steps)@).push(
            StepView::Write(location_field(record@)),
        ),
{
    let mut text = String::new();
    match &record.file {
        Some(file) => text.append(file.as_str()),
        None => text.append("<unknown>"),
    }
    text.append(":");
    match record.line {
        Some(line) => push_decimal(&mut text, line),
        None => text.append("<unknown>"),
    }
    text.append(" - ");
    assert(text@ =~= location_field(record@));
    put(steps, Step::Write(text));
}

/// Appends the write of the message field.
pub fn write_args(record: &Record, steps: &mut Vec<Step>)
    ensures
        views(final(steps)@) == views(old(steps)@).push(StepView::Write(args_field(record@))),
{
    let mut text = String::new();
    text.append(record.args.as_str());
    text.append("\n");
    assert(text@ =~= args_field(record@));
    put(steps, Step::Write(text));
}

/// Renders `record` for a plain stream.
pub fn try_log(config: &Config, record: &Record) -> (steps: Vec<Step>)
    ensures
        views(steps@) == plain_steps(*config, record@),
{
    let mut steps: Vec<Step> = Vec::new();
    assert(views(steps@) =~= Seq::empty());
    if let Some(time) = config.time {
        if reaches(record.level, time) {
            write_time(record, &mut steps);
        }
    }
    if let Some(level) = config.level {
        if reaches(record.level, level) {
            write_level(record, &mut steps);
        }
    }
    if let Some(target) = config.target {
        if reaches(record.level, target) {
            write_target(record, &mut steps);
        }
    }
    if let Some(location) = config.location {
        if reaches(record.level, location) {
            write_location(record, &mut steps);
        }
    }
    write_args(record, &mut steps);
    assert(views(steps@) =~= plain_steps(*config, record@));
    steps
}

} // verus!
