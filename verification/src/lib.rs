//! Printing documents on the printers that CUPS manages: the printers and their options, the
//! encoding of print options as CUPS option values, and a print job as a state machine whose
//! steps are the calls into CUPS.
use vstd::prelude::*;

pub mod cli;
pub mod consts;
pub mod decimal;
pub mod dest;
pub mod error;
pub mod job;
pub mod options;
pub mod printer;

pub use error::PrintError;
pub use job::{print, CupsJob, PrintAction, PrintEvent};
pub use printer::{get_printers, Printer};

verus! {

} // verus!
