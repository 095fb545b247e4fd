//! The emitter for the plain standard streams.

use vstd::prelude::*;

use crate::config::{Config, Level, LevelFilter};
use crate::emission::{Destination, Emission, EmissionView};
use crate::loggers::logging::{emitted, lets_through, passes, try_log};
use crate::record::{Record, RecordView};

verus! {

/// The emitter for the plain standard streams: no color, no handle of its own.
pub struct SimpleLogger {
    level: LevelFilter,
    config: Config,
}

impl SimpleLogger {
    /// The filter of this logger.
    pub closed spec fn spec_level(&self) -> LevelFilter {
        self.level
    }

    /// The display configuration of this logger.
    pub closed spec fn spec_config(&self) -> Config {
        self.config
    }

    /// What [`SimpleLogger::log`] hands back for record `r`: nothing where the
    /// record does not pass the filter, else the stream for its severity and
    /// the steps that render it on a plain stream.
    pub open spec fn emits(&self, r: RecordView) -> Option<EmissionView> {
        emitted(self.spec_level(), self.spec_config(), r, false)
    }

    /// Makes a logger from a filter and a display configuration. Neither can
    /// be changed later on.
    pub fn new(log_level: LevelFilter, config: Config) -> (r: Box<SimpleLogger>)
        ensures
            r.spec_level() == log_level,
            r.spec_config() == config,
    {
        Box::new(SimpleLogger { level: log_level, config: config })
    }

    /// Whether this logger renders records of severity `level`.
    pub fn enabled(&self, level: Level) -> (r: bool)
        ensures
            r == passes(level, self.spec_level()),
    {
        lets_through(self.level, level)
    }

    /// Consumes one record: says where it goes and how it is rendered, or
    /// that nothing is to be done because the filter holds it back.
    pub fn log(&self, record: &Record) -> (r: Option<Emission>)
        ensures
            match r {
                Some(e) => self.emits(record@) == Some(e@),
                None => self.emits(record@) is None,
            },
    {
        if self.enabled(record.level) {
            Some(
                Emission {
                    destination: Destination::of(record.level),
                    steps: try_log(&self.config, record),
                },
            )
        } else {
            None
        }
    }

    /// Does nothing: nothing of an emission stays behind in the logger.
    pub fn flush(&self) {
    }

    /// The filter of this logger.
    #[verifier::when_used_as_spec(spec_level)]
    pub fn level(&self) -> (r: LevelFilter)
        ensures
            r == self.spec_level(),
    {
        self.level
    }

    /// The display configuration of this logger.
    pub fn config(&self) -> (r: Option<&Config>)
        ensures
            r == Some(&self.spec_config()),
    {
        Some(&self.config)
    }
}

} // verus!
