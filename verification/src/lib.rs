//! A uniform interface over five compression codecs: zlib, gzip, Brotli,
//! bzip2 and xz. One selector governs both how a container is written and how
//! it is read back.

pub mod algorithm;
pub mod codec;
pub mod failure;
pub mod frame;
pub mod pipeline;
pub mod prompt;
pub mod registry;
pub mod size;
pub mod text;
pub mod transform;
