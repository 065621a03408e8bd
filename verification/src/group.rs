//! Group (team) summary assembly for the route handlers that list a user's
//! groups: pure conversion from fetched team records to response summaries.
pub mod convert;
pub mod fetch;
pub mod portal;
