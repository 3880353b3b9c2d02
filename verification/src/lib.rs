//! Decision logic of a desktop front end for locally hosted language models:
//! memory tiers and model catalog, the text of prompts and of streamed replies,
//! the steps of a harness run, and image generation through local servers.

pub mod cache;
pub mod catalog;
pub mod clock;
pub mod endpoints;
pub mod harness;
pub mod images;
pub mod prompts;
pub mod stream;
pub mod system;
pub mod text;
