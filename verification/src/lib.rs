//! A menu of ten lessons on Rust, and the helpers those lessons are built on.
//!
//! The dispatcher is handed each line that was read, strips the whitespace
//! around it, looks the token up in a fixed catalog and says what has to
//! happen next. Everything it decides is stated in contracts and proved;
//! printing and reading are left to the caller.
//!
//! - [`catalog`]: the lessons, their identifiers and titles, and the lookup.
//! - [`dispatcher`]: selections, states, effects, one step and whole sessions.
//! - [`menu`]: the text of the menu and of the other notices.
//! - [`text`], [`decimal`]: whitespace, trimming, comparison; numbers written
//!   out in decimal.
//! - [`variables`], [`functions`], [`structs`], [`enums`],
//!   [`pattern_matching`], [`error_handling`], [`generics`], [`lifetimes`]:
//!   what the lessons of those names compute before they print.

pub mod catalog;
pub mod decimal;
pub mod dispatcher;
pub mod enums;
pub mod error_handling;
pub mod functions;
pub mod generics;
pub mod lifetimes;
pub mod menu;
pub mod pattern_matching;
pub mod structs;
pub mod text;
pub mod variables;
