//! Callbacks passed as parameters, kept in records, and run either in place
//! or handed over to a worker. Console output is modelled as the sequence of
//! lines that each step produces; printing those lines is left to the caller.

pub mod text;
pub mod invoke;
pub mod record;
pub mod demo;
