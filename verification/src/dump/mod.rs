//! The logic of the `j2534-dump` command-line tool: option parsing, frame
//! building for K-Line requests, output formatting, the loopback stress
//! test's bookkeeping, and the choices made from the options.

pub mod parse;
pub mod format;
pub mod kline;
pub mod stress;
pub mod options;
