//! Struct-based access to various comment APIs.

use vstd::prelude::*;

use super::user::User;

verus! {

/// Maps to a single comment.
#[derive(Clone)]
pub struct Comment {
    /// Comment's user.
    pub user: User,
    /// The Comment's link, if a link-type Comment.
    pub link: Option<String>,
    /// The Comment's text, if a text-type Comment.
    pub text: Option<String>,
}

} // verus!
