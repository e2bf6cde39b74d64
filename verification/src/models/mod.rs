//! Struct-oriented access to the API: thin wrappers around the endpoints
//! for subreddits, users, posts and comments.  Only the subreddit wrapper
//! carries logic of its own (the page-size split of `get_top`); the rest
//! are value holders around the opaque JSON the endpoints return.

pub mod comment;
pub mod post;
pub mod subreddit;
pub mod user;
