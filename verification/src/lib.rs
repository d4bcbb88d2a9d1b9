//! An interactive menu client: verified dispatch of one-line menu choices to
//! HTTP JSON fetches of fixed record shapes, and verified decoding and
//! rendering of the responses.

pub mod json;
pub mod menu;
pub mod records;
pub mod text;
