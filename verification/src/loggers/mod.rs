//! The emitters and the formatter that they share.

pub mod lemmas;
pub mod logging;
pub mod simplelog;
pub mod termlog;
