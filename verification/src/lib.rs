//! A searchable directory of user records.
//!
//! The crate holds the state of a directory viewer as plain data: the records
//! that one fetch delivers, the status of that fetch and the search term.
//! Every operation is a verified function from the state to its successor or
//! to a value derived from it. A front end performs the effects that the
//! operations ask for, hands their outcomes back and draws what
//! [`render`] returns.

pub mod record;
pub mod screen;
pub mod search;
pub mod store;
pub mod text;

pub use record::{Address, Company, User};
pub use screen::{render, Card, Screen, LINK_SCHEME};
pub use search::{filter_records, occurs_in_any, record_matches};
pub use store::{DirectoryState, FetchFailure, FetchRequest, FetchStatus, USERS_ENDPOINT};
pub use text::fold_case;
