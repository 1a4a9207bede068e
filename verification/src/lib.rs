//! Log normalisation and classification.
//!
//! A log text of unknown shape is split into records, each record is sorted
//! into one of five severity buckets, and the buckets are handed out in the
//! order of the records. Beside that pipeline stand two tools for texts: a
//! truncation to a budget of tokens and a line diff.
//!
//! - [`format`]: what format a text has, by a cheap look at its shape.
//! - [`records`]: the records of a text under a format.
//! - [`severity`]: the bucket and message of one record.
//! - [`aggregate`]: all records classified on a pool of workers, with the
//!   proof that the split of the work does not show in the result.
//! - [`truncate`]: a text cut to a number of tokens.
//! - [`diff`]: the edit script between two texts, checked to reproduce both.
//! - [`highlight`]: terminal colours for log lines and diff lines.
//! - [`request`]: the text that is sent to the fix-suggestion service.
//! - [`text`]: searching and slicing of character sequences.

pub mod aggregate;
pub mod diff;
pub mod format;
pub mod highlight;
pub mod records;
pub mod request;
pub mod severity;
pub mod text;
pub mod truncate;
