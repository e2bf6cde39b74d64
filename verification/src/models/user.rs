//! Struct-based access to various user APIs.

use vstd::prelude::*;

use crate::errors::ApiError;
use crate::ext::json_doc_ok;
use crate::ext::json_from_str;
use crate::ext::read_user_name;
use crate::ext::user_name_of;

verus! {

/// Maps to a single user: the opaque "about" information the user endpoint
/// returned, together with its `data.name` string, carried as a plain
/// value so that contracts can speak of it.
#[derive(Clone)]
pub struct User {
    /// User's "about" information.
    pub about: serde_json::Value,
    /// The `data.name` member of the about information, where it carried
    /// a string one.
    pub about_name: Option<String>,
}

impl User {
    /// Builds a user from the text of its about document: exactly when the
    /// text parses as JSON, the opaque document is kept together with its
    /// `data.name` string exactly where the text carries one.
    pub fn from_about(body: &str) -> (r: Result<User, ApiError>)
        ensures
            r is Ok <==> json_doc_ok(body@),
            r is Ok ==> (r->Ok_0.about_name is Some <==> user_name_of(body@) is Some)
                && (r->Ok_0.about_name is Some ==> r->Ok_0.about_name->Some_0@ == user_name_of(
                body@,
            )->Some_0),
            r is Err ==> r->Err_0.source@ == "serde_json::error::Error"@,
    {
        let v = match json_from_str(body) {
            Ok(v) => v,
            Err(e) => {
                return Err(ApiError::from(e));
            },
        };
        let name = read_user_name(body);
        Ok(User { about: v, about_name: name })
    }

    /// Hands the user's name out, or reports an application error when the
    /// about data carried none.
    pub fn name(&self) -> (r: Result<String, ApiError>)
        ensures
            r is Ok <==> self.about_name is Some,
            r is Ok ==> r->Ok_0 == self.about_name->Some_0,
            r is Err ==> r->Err_0.source@ == Seq::<char>::empty() && r->Err_0.message@
                == "User about data has no 'data.name' string"@,
    {
        match &self.about_name {
            Some(n) => Ok(n.clone()),
            None => Err(
                ApiError::application("User about data has no 'data.name' string".to_owned()),
            ),
        }
    }
}

} // verus!
