//! The emitter for color terminals.

use log::SetLoggerError;
use vstd::prelude::*;
use vstd::std_specs::convert::FromSpecImpl;

use crate::config::{Config, Level, LevelFilter};
use crate::emission::{views, Color, Destination, Emission, EmissionView, Step};
use crate::loggers::logging::{
    emitted, lets_through, passes, put, reaches, term_steps, write_args, write_level,
    write_location, write_target, write_time,
};
use crate::record::{Record, RecordView};

verus! {

/// `log::SetLoggerError`, which `log::set_logger` and `log::set_boxed_logger`
/// return when a logger was installed before. It is carried through as it is.
#[verifier::external_type_specification]
#[verifier::external_body]
pub struct ExSetLoggerError(SetLoggerError);

/// Why no terminal logger could be set up.
#[derive(Debug)]
pub enum TermLogError {
    /// Another logger was installed before.
    SetLogger(SetLoggerError),
    /// Standard output or standard error could not be opened as a terminal:
    /// no terminal is attached to the process, it runs detached, and the like.
    Term,
}

/// What `log::SetLoggerError` displays.
pub open spec fn set_logger_text() -> Seq<char> {
    "attempted to set a logger after the logging system was already initialized"@
}

/// The text of a `log::SetLoggerError`, as `to_string` gets it from the
/// `Display` impl of that type in `log`. That impl writes one fixed sentence,
/// whatever the value; the contract claims that sentence, and nothing here
/// proves it.
#[verifier::external_body]
fn display_set_logger_error(error: &SetLoggerError) -> (text: String)
    ensures
        text@ == set_logger_text(),
{
    error.to_string()
}

impl TermLogError {
    /// What [`TermLogError::description`] returns.
    pub open spec fn description_text(self) -> Seq<char> {
        match self {
            TermLogError::SetLogger(_) => set_logger_text(),
            TermLogError::Term => "A terminal could not be opened"@,
        }
    }

    /// The error in words.
    pub fn description(&self) -> (text: String)
        ensures
            text@ == self.description_text(),
    {
        match self {
            TermLogError::SetLogger(err) => display_set_logger_error(err),
            TermLogError::Term => "A terminal could not be opened".to_owned(),
        }
    }

    /// The error that this one was made from, if any.
    pub fn cause(&self) -> (r: Option<&SetLoggerError>)
        ensures
            r == match *self {
                TermLogError::SetLogger(err) => Some(&err),
                TermLogError::Term => None,
            },
    {
        match self {
            TermLogError::SetLogger(err) => Some(err),
            TermLogError::Term => None,
        }
    }
}

impl From<SetLoggerError> for TermLogError {
    fn from(error: SetLoggerError) -> (r: TermLogError) {
        TermLogError::SetLogger(error)
    }
}

impl FromSpecImpl<SetLoggerError> for TermLogError {
    open spec fn obeys_from_spec() -> bool {
        true
    }

    open spec fn from_spec(error: SetLoggerError) -> TermLogError {
        TermLogError::SetLogger(error)
    }
}

/// The emitter for color terminals. It owns the handles of the two terminals,
/// `E` for standard error and `O` for standard output, and renders the
/// severity field in the color of the severity.
pub struct TermLogger<E, O> {
    level: LevelFilter,
    config: Config,
    stderr: E,
    stdout: O,
}

impl<E, O> TermLogger<E, O> {
    /// The filter of this logger.
    pub closed spec fn spec_level(&self) -> LevelFilter {
        self.level
    }

    /// The display configuration of this logger.
    pub closed spec fn spec_config(&self) -> Config {
        self.config
    }

    /// The handle of the standard error terminal.
    pub closed spec fn spec_stderr(&self) -> &E {
        &self.stderr
    }

    /// The handle of the standard output terminal.
    pub closed spec fn spec_stdout(&self) -> &O {
        &self.stdout
    }

    /// What [`TermLogger::log`] hands back for record `r`: nothing where the
    /// record does not pass the filter, else the stream for its severity and
    /// the steps that render it on a terminal.
    pub open spec fn emits(&self, r: RecordView) -> Option<EmissionView> {
        emitted(self.spec_level(), self.spec_config(), r, true)
    }

    /// Makes a logger from a filter, a display configuration and the handles
    /// of the two terminals, each as the attempt to open it came out. There is
    /// a logger exactly where both were opened.
    pub fn new(log_level: LevelFilter, config: Config, stderr: Option<E>, stdout: Option<O>) -> (r:
        Option<Box<TermLogger<E, O>>>)
        ensures
            r is Some <==> stderr is Some && stdout is Some,
            r matches Some(logger) ==> {
                &&& logger.spec_level() == log_level
                &&& logger.spec_config() == config
                &&& Some(*logger.spec_stderr()) == stderr
                &&& Some(*logger.spec_stdout()) == stdout
            },
    {
        match stderr {
            Some(stderr) => match stdout {
                Some(stdout) => Some(
                    Box::new(TermLogger { level: log_level, config: config, stderr, stdout }),
                ),
                None => None,
            },
            None => None,
        }
    }

    /// Makes the logger that is to become the logger of the process, or says
    /// why there is none: [`TermLogError::Term`] exactly where a terminal
    /// could not be opened. Installing the logger is left to the caller.
    pub fn init(log_level: LevelFilter, config: Config, stderr: Option<E>, stdout: Option<O>) -> (r:
        Result<Box<TermLogger<E, O>>, TermLogError>)
        ensures
            r is Ok <==> stderr is Some && stdout is Some,
            r matches Ok(logger) ==> {
                &&& logger.spec_level() == log_level
                &&& logger.spec_config() == config
                &&& Some(*logger.spec_stderr()) == stderr
                &&& Some(*logger.spec_stdout()) == stdout
            },
            r matches Err(e) ==> e is Term,
    {
        match TermLogger::new(log_level, config, stderr, stdout) {
            Some(logger) => Ok(logger),
            None => Err(TermLogError::Term),
        }
    }

    /// The steps that render `record` on a terminal, whatever the filter.
    pub fn try_log_term(&self, record: &Record) -> (steps: Vec<Step>)
        ensures
            views(steps@) == term_steps(self.spec_config(), record@),
    {
        let color = Color::of(record.level);
        let mut steps: Vec<Step> = Vec::new();
        assert(views(steps@) =~= Seq::empty());

        if let Some(time) = self.config.time {
            if reaches(record.level, time) {
                write_time(record, &mut steps);
            }
        }
        if let Some(level) = self.config.level {
            if reaches(record.level, level) {
                put(&mut steps, Step::Foreground(color));
                write_level(record, &mut steps);
                put(&mut steps, Step::Reset);
            }
        }
        if let Some(target) = self.config.target {
            if reaches(record.level, target) {
                write_target(record, &mut steps);
            }
        }
        if let Some(location) = self.config.location {
            if reaches(record.level, location) {
                write_location(record, &mut steps);
            }
        }
        write_args(record, &mut steps);
        put(&mut steps, Step::Flush);
        assert(views(steps@) =~= term_steps(self.spec_config(), record@));
        steps
    }

    /// Whether this logger renders records of severity `level`.
    pub fn enabled(&self, level: Level) -> (r: bool)
        ensures
            r == passes(level, self.spec_level()),
    {
        lets_through(self.level, level)
    }

    /// Consumes one record: says where it goes and how it is rendered, or
    /// that nothing is to be done because the filter holds it back.
    pub fn log(&self, record: &Record) -> (r: Option<Emission>)
        ensures
            match r {
                Some(e) => self.emits(record@) == Some(e@),
                None => self.emits(record@) is None,
            },
    {
        if self.enabled(record.level) {
            Some(
                Emission {
                    destination: Destination::of(record.level),
                    steps: self.try_log_term(record),
                },
            )
        } else {
            None
        }
    }

    /// Does nothing: every emission ends with its own flush.
    pub fn flush(&self) {
    }

    /// The filter of this logger.
    #[verifier::when_used_as_spec(spec_level)]
    pub fn level(&self) -> (r: LevelFilter)
        ensures
            r == self.spec_level(),
    {
        self.level
    }

    /// The display configuration of this logger.
    pub fn config(&self) -> (r: Option<&Config>)
        ensures
            r == Some(&self.spec_config()),
    {
        Some(&self.config)
    }

    /// The handle of the standard error terminal.
    #[verifier::when_used_as_spec(spec_stderr)]
    pub fn stderr(&self) -> (r: &E)
        ensures
            r == self.spec_stderr(),
    {
        &self.stderr
    }

    /// The handle of the standard output terminal.
    #[verifier::when_used_as_spec(spec_stdout)]
    pub fn stdout(&self) -> (r: &O)
        ensures
            r == self.spec_stdout(),
    {
        &self.stdout
    }
}

} // verus!
