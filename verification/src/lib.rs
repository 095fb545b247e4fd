//! Log emitters that render one record as one line of text.
//!
//! Two emitters share one formatter: [`SimpleLogger`] renders for the plain
//! standard streams, [`TermLogger`] renders for color terminals. Neither
//! touches a stream itself. An emitter decides whether a record passes its
//! filter, which of the two streams it is bound for, which fields appear and
//! in what order, and hands back the steps to perform; the caller that owns
//! the streams performs them and reports how each one went.

pub mod config;
pub mod emission;
pub mod loggers;
pub mod record;
pub mod rendering;
pub mod text;

pub use config::{Config, Level, LevelFilter};
pub use emission::{Color, Destination, Emission, Step};
pub use record::Record;
pub use rendering::Rendering;
pub use loggers::simplelog::SimpleLogger;
pub use loggers::termlog::{TermLogError, TermLogger};
