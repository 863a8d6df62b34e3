//! Batch processing of the files of one directory.
//!
//! A [`process::Process`] holds the settings of a run. Discovery makes its
//! items from the listing of the input directory, one for each file with the
//! extension; validation says which inputs are missing; staging says whether
//! a scratch directory is to be made; and the batch hands each item to a
//! transformation, skips it or fails it, and reports how every item ended.
//!
//! The library never touches the file system. Its caller looks and hands
//! over what it saw: the listing of a directory, whether a file is there.
//! Where something is to be changed, the library says what, and the caller
//! does it. Every function is verified against its contract.

pub mod batch;
pub mod config;
pub mod discovery;
pub mod error;
pub mod item;
pub mod process;
pub mod report;
pub mod run;
pub mod seqs;
pub mod staging;
pub mod text;
pub mod validation;
