//! Collects the users who starred a repository from a cursor-paginated
//! GraphQL API and flattens each star event into an output row.
//!
//! The library holds the decisions: the query text, the request header
//! values, the status check, the pagination state machine and the row
//! projection. Sending requests, decoding JSON and writing the table are
//! left to the caller.

pub mod error;
pub mod model;
pub mod pager;
pub mod request;

pub use error::{check_status, StarError};
pub use model::{OutputRow, StarEvent, Timestamp, User};
pub use pager::{Page, Pager, Step};
pub use request::{authorization_value, bearer_text, page_size, stargazers_query, user_agent_value, Args};
