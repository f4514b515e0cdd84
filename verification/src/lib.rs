//! Verified core of a corpus-based granular matching and resynthesis tool:
//! command-line parsing, configuration checking, corpus and index layout
//! planning, resampling plans, carrier-envelope segment planning and the
//! progress display of the offline pipeline.

pub mod text;
pub mod cli;
pub mod config;
pub mod audio;
pub mod corpus;
pub mod descriptor;
pub mod index;
pub mod matching;
pub mod micro_adaptation;
pub mod rendering;
pub mod synthesis;
pub mod target;
pub mod pipeline;
