//! Comment- and string-aware pattern checks over JavaScript/TypeScript source text.

pub mod scanner;
pub mod lines;

pub use lines::{build_line_offsets, offset_to_line};
pub mod extract;
pub mod pattern;
pub mod text;
pub mod rules;
pub mod config;
pub mod biome;
pub mod reporter;
pub mod input;
