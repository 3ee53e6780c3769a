//! Text width estimation from per-font advance tables and kerning pairs.
//!
//! Widths are integers in the caller's font units. A font's metrics hold one
//! advance for each printable ASCII character (codes 32 through 126) and a
//! table of kerning adjustments for ordered pairs of such characters. Text is
//! first transliterated to ASCII; characters outside the printable range are
//! skipped, and a skipped character breaks no kerning pair around it.

mod tables;
mod transliterate;

pub mod metrics;
pub mod store;
pub mod laws;

pub use metrics::FontMap;
pub use store::{FontError, FontWidths};
