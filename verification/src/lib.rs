//! Text reconstruction for paginated documents and a line-aligned,
//! two-column difference report between two reconstructed texts.

pub mod change;
pub mod compare;
pub mod content;
pub mod decode;
pub mod engine;
pub mod line;
pub mod lines;
pub mod reconstruct;
pub mod report;
pub mod terminal;
