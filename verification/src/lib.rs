//! Transibase draws donations out of orders that a shop exported as JSON and
//! writes them as CSV, all of them or those of one year.
//!
//! - [`order`]: the orders as they are read, and the rows drawn from them.
//! - [`loader`]: the ways in which the text of an export is read, and what
//!   follows from each reading.
//! - [`calendar`] and [`date`]: calendar dates, and how the date of a
//!   transaction is normalized.
//! - [`year`]: the filter year.
//! - [`converter`]: from orders to rows.
//! - [`emitter`]: from rows to CSV.
//! - [`process`]: from orders to the CSV that is written.
//! - [`cli`]: the command line and the prompt.
//! - [`error`]: how a conversion fails.

pub mod calendar;
pub mod cli;
pub mod converter;
pub mod date;
pub mod emitter;
pub mod error;
pub mod loader;
pub mod order;
pub mod process;
pub mod year;
