//! Rendering of source-code blocks into web markup and typesetting markup,
//! with optional syntax colouring, and the leveled messages that go with it.

pub mod breaks;
pub mod channel;
pub mod directive;
pub mod engine;
pub mod escape;
pub mod language;
pub mod logger;
pub mod style;
pub mod syntax;
pub mod tex;
pub mod text;
pub mod theme;
pub mod web;
