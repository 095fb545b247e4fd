//! What an emitter hands to the caller that owns the streams: a destination
//! and the steps to perform on it, in order.

use vstd::prelude::*;

use crate::config::Level;

verus! {

/// Foreground colors of a terminal.
#[derive(Clone, Copy, Debug, PartialEq, Eq, Structural, Hash)]
pub enum Color {
    Red,
    Yellow,
    Blue,
    Cyan,
    White,
}

/// The two output streams of a process.
#[derive(Clone, Copy, Debug, PartialEq, Eq, Structural, Hash)]
pub enum Destination {
    /// Standard output.
    Stdout,
    /// Standard error.
    Stderr,
}

/// One operation on a destination.
#[derive(Clone, Debug, PartialEq, Eq)]
pub enum Step {
    /// Set the foreground color.
    Foreground(Color),
    /// Write the text.
    Write(String),
    /// Put the terminal back to its default attributes.
    Reset,
    /// Flush what was written.
    Flush,
}

/// A [`Step`] as a mathematical value.
pub enum StepView {
    Foreground(Color),
    Write(Seq<char>),
    Reset,
    Flush,
}

impl View for Step {
    type V = StepView;

    open spec fn view(&self) -> StepView {
        match *self {
            Step::Foreground(c) => StepView::Foreground(c),
            Step::Write(t) => StepView::Write(t@),
            Step::Reset => StepView::Reset,
            Step::Flush => StepView::Flush,
        }
    }
}

/// The steps of a sequence, each as a mathematical value.
pub open spec fn views(steps: Seq<Step>) -> Seq<StepView> {
    Seq::new(steps.len(), |i: int| steps[i]@)
}

/// One record on its way out: where it goes and the steps that render it.
#[derive(Clone, Debug, PartialEq, Eq)]
pub struct Emission {
    /// The stream that the record is bound for.
    pub destination: Destination,
    /// The steps to perform on that stream, first to last.
    pub steps: Vec<Step>,
}

/// An [`Emission`] as a mathematical value.
pub struct EmissionView {
    pub destination: Destination,
    pub steps: Seq<StepView>,
}

impl View for Emission {
    type V = EmissionView;

    open spec fn view(&self) -> EmissionView {
        EmissionView { destination: self.destination, steps: views(self.steps@) }
    }
}

/// The color that marks a severity: red for errors, yellow for warnings, blue
/// for information, cyan for debugging, white for traces.
pub open spec fn color_of(level: Level) -> Color {
    match level {
        Level::Error => Color::Red,
        Level::Warn => Color::Yellow,
        Level::Info => Color::Blue,
        Level::Debug => Color::Cyan,
        Level::Trace => Color::White,
    }
}

/// The stream for a severity: errors go to standard error, all else to standard output.
pub open spec fn route(level: Level) -> Destination {
    if level == Level::Error {
        Destination::Stderr
    } else {
        Destination::Stdout
    }
}

impl Color {
    /// The color that marks `level`.
    pub fn of(level: Level) -> (r: Color)
        ensures
            r == color_of(level),
    {
        match level {
            Level::Error => Color::Red,
            Level::Warn => Color::Yellow,
            Level::Info => Color::Blue,
            Level::Debug => Color::Cyan,
            Level::Trace => Color::White,
        }
    }
}

impl Destination {
    /// The stream that records of `level` are written to.
    pub fn of(level: Level) -> (r: Destination)
        ensures
            r == route(level),
    {
        match level {
            Level::Error => Destination::Stderr,
            _ => Destination::Stdout,
        }
    }
}

/// The text that a sequence of steps writes: the texts of its `Write` steps, joined in order.
pub open spec fn text_of(steps: Seq<StepView>) -> Seq<char>
    decreases steps.len(),
{
    if steps.len() == 0 {
        Seq::empty()
    } else {
        text_of(steps.drop_last()) + match steps.last() {
            StepView::Write(t) => t,
            _ => Seq::empty(),
        }
    }
}

/// The text that reaches `destination` when every step of `e` goes well;
/// `e` is what an emitter handed back for a record.
pub open spec fn written(e: Option<EmissionView>, destination: Destination) -> Seq<char> {
    match e {
        Some(e) => if e.destination == destination {
            text_of(e.steps)
        } else {
            Seq::empty()
        },
        None => Seq::empty(),
    }
}

/// The foreground color in force after `steps`, where `start` was in force
/// before them; `None` is the default of the terminal.
pub open spec fn color_after(steps: Seq<StepView>, start: Option<Color>) -> Option<Color>
    decreases steps.len(),
{
    if steps.len() == 0 {
        start
    } else {
        match steps.last() {
            StepView::Foreground(c) => Some(c),
            StepView::Reset => None,
            _ => color_after(steps.drop_last(), start),
        }
    }
}

/// The texts that `steps` write, each with the foreground color that is in
/// force when it is written; `start` is in force before the first step.
pub open spec fn painted(steps: Seq<StepView>, start: Option<Color>) -> Seq<
    (Option<Color>, Seq<char>),
>
    decreases steps.len(),
{
    if steps.len() == 0 {
        Seq::empty()
    } else {
        match steps.last() {
            StepView::Write(t) => painted(steps.drop_last(), start).push(
                (color_after(steps.drop_last(), start), t),
            ),
            _ => painted(steps.drop_last(), start),
        }
    }
}

} // verus!
