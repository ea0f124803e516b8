//! Navigation core of a terminal menu: a content store of titles with a
//! "liked" marker, an incremental substring search with debounce, a
//! selection list built on both, and a focus / workflow dispatcher.

pub mod convert;
pub mod dispatch;
pub mod highlight;
pub mod key;
pub mod list;
pub mod search;
pub mod text;

pub use dispatch::{Action, App, AppView, Focus, Stage};
pub use highlight::{build_highlighted_item, span_in_folded, Highlighted};
pub use key::{KeyCode, KeyPress};
pub use list::{DisplayItem, ListView, OptionsList};
pub use search::{ListMode, SearchState, SearchView, SEARCH_TIMEOUT_MS};
pub use text::{chars_of, contains_chars, find_chars};
