//! Detection of the user's preferred language for a desktop application.
//!
//! The host reads what its platform reports (registry values on Windows, the
//! current locale on macOS, the `LANG` environment variable everywhere) and
//! hands it over as plain values; this library reduces it to one of the
//! language tags that the application supports. Detection never fails: a
//! source that gave nothing leaves the choice to the next one, and English is
//! the last resort.

pub mod detect;
pub mod laws;
pub mod platform;
pub mod tag;
pub mod text;
