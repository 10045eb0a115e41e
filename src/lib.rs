//! View-model controller of a note/bookmark archive browser: it composes the
//! entries query from the current sort and tag filter, tracks the fetches of
//! the two remote resources (entries and tags), discards stale responses, and
//! derives what the cards show.

pub mod controller;
pub mod entry;
pub mod laws;
pub mod query;
pub mod resource;

pub use controller::{App, AppView, Cards, FetchCommand, FetchRequest, Msg};
pub use entry::{thumbnail_name, Card, Entry};
pub use query::{build, build_tags, SortKey, DEFAULT_BASE_URL};
pub use resource::{FetchCoordinator, FetchError, RequestHandle, ResourceKind, ResourceState};
