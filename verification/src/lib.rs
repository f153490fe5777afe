//! Verified core of two agent tools: image generation and PDF text reading.
pub mod filename;
pub mod image_gen;
pub mod pdf_read;
pub mod text;
pub mod tool;
