//! A file-backed collection of blog posts, with every decision kept apart from
//! the disk and the network.
//!
//! The library computes: what a post holds, which files a command touches and in
//! which order, which message a failure carries. A caller performs the steps it
//! is handed and reports back what the outside world answered.

pub mod cli;
pub mod header;
pub mod labels;
pub mod outside;
pub mod plan;
pub mod post;
pub mod text;
