//! An in-process metric pipeline: call sites hand typed samples to a single
//! writer, which serialises them as a table of text rows or as a waveform trace.

pub mod channel;
pub mod kind;
pub mod recorder;
pub mod site;
pub mod tabular;
pub mod text;
pub mod waveform;
pub mod writer;
