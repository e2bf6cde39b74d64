//! Struct-based access to various post APIs.

use vstd::prelude::*;

use super::user::User;

verus! {

/// Maps to a single post, either link or text.
#[derive(Clone)]
pub struct Post {
    /// Post's user.
    pub user: User,
    /// Title's post.
    pub title: String,
    /// The post's link, if a link-type post.
    pub link: Option<String>,
    /// The post's text, if a text-type post.
    pub text: Option<String>,
}

} // verus!
