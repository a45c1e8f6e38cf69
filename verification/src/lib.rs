//! Multi-monitor screenshot compositor: enumerates displays, composites their
//! frames into one logical-pixel canvas, maps selections (canvas rectangles or
//! monitor indices) to pixel-exact crops, and hands the result through a
//! take-once pending-capture store.

pub mod errors;
pub mod image_data;
pub mod capture;
pub mod session;
pub mod encode;
pub mod config;
pub mod programs;
pub mod storage;
