//! Logging in with a Strawberry ID.

pub mod credentials;
pub mod error;
pub mod verify;

use vstd::prelude::*;
use crate::fmt::{json_document, object_in, text_in, text_of, JSON};
use crate::id::credentials::StrawberryIdCredentials;
use crate::id::error::ApiError;
use crate::text::str_eq;

verus! {

/// The account behind a login.
#[derive(Debug, Clone, PartialEq, Eq)]
pub struct StrawberryId {
    pub email: String,
    pub full_name: String,
    pub profile_picture: String,
    pub username: String,
    pub token: String,
}

/// The account as the service describes it: of each member its text, where
/// the member is there and is a string.
#[derive(Debug, Clone, PartialEq, Eq)]
pub struct CallbackUser {
    pub email: Option<String>,
    pub full_name: Option<String>,
    pub profile_picture: Option<String>,
    pub username: Option<String>,
    pub token: Option<String>,
}

/// What the service answered to a login code.
#[derive(Debug, Clone, PartialEq, Eq)]
pub enum CallbackReply {
    /// The answer is no JSON document.
    NotJson,
    /// The document has no status.
    NoStatus,
    /// The document has a status: its text, where it is a string, and the
    /// account, where the document describes one.
    Status { status: Option<String>, user: Option<CallbackUser> },
}

/// The text of a member, or the empty text where there is none.
pub open spec fn text_or_empty(member: Option<String>) -> Seq<char> {
    match member {
        Some(text) => text@,
        None => Seq::empty(),
    }
}

/// Whether the status refuses the login code.
pub open spec fn refused(status: Seq<char>) -> bool {
    status == "Invalid code"@ || status == "Not authenticated"@
}

impl Default for StrawberryId {
    /// An account with empty fields.
    fn default() -> (r: Self)
        ensures
            r.email@.len() == 0,
            r.full_name@.len() == 0,
            r.profile_picture@.len() == 0,
            r.username@.len() == 0,
            r.token@.len() == 0,
    {
        StrawberryId {
            email: String::new(),
            full_name: String::new(),
            profile_picture: String::new(),
            username: String::new(),
            token: String::new(),
        }
    }
}

fn or_empty(member: Option<String>) -> (r: String)
    ensures
        r@ == text_or_empty(member),
{
    match member {
        Some(text) => text,
        None => String::new(),
    }
}

impl StrawberryId {
    /// Whether this is the account that `user` describes: each field is
    /// the member's text, and empty where the member is missing.
    pub open spec fn describes(&self, user: CallbackUser) -> bool {
        &&& self.email@ == text_or_empty(user.email)
        &&& self.full_name@ == text_or_empty(user.full_name)
        &&& self.profile_picture@ == text_or_empty(user.profile_picture)
        &&& self.username@ == text_or_empty(user.username)
        &&& self.token@ == text_or_empty(user.token)
    }

    /// Whether every field is empty.
    pub open spec fn is_empty(&self) -> bool {
        &&& self.email@.len() == 0
        &&& self.full_name@.len() == 0
        &&& self.profile_picture@.len() == 0
        &&& self.username@.len() == 0
        &&& self.token@.len() == 0
    }

    /// Whether `result` is what the answer `reply` means.
    ///
    /// An answer that is no JSON gives an empty account. A document
    /// without a status, or with a status that is no text, is an
    /// `InvalidDataFormat`. A status that refuses the code gives no
    /// account. Any other status gives the account that the document
    /// describes, and an `InvalidDataFormat` where it describes none.
    pub open spec fn answers(reply: CallbackReply, result: Result<Option<Self>, ApiError>) -> bool {
        match reply {
            CallbackReply::NotJson => result matches Ok(Some(id)) && id.is_empty(),
            CallbackReply::NoStatus => result == Err::<Option<Self>, ApiError>(
                ApiError::InvalidDataFormat,
            ),
            CallbackReply::Status { status: None, user } => result == Err::<
                Option<Self>,
                ApiError,
            >(ApiError::InvalidDataFormat),
            CallbackReply::Status { status: Some(status), user } => if refused(status@) {
                result == Ok::<Option<Self>, ApiError>(None)
            } else {
                match user {
                    Some(user) => result matches Ok(Some(id)) && id.describes(user),
                    None => result == Err::<Option<Self>, ApiError>(ApiError::InvalidDataFormat),
                }
            },
        }
    }

    /// Turns the answer of the service into the account, or into the
    /// reason why there is none.
    pub fn from_reply(reply: CallbackReply) -> (r: Result<Option<Self>, ApiError>)
        ensures
            Self::answers(reply, r),
    {
        match reply {
            CallbackReply::NotJson => Ok(
                Some(
                    StrawberryId {
                        email: String::new(),
                        full_name: String::new(),
                        profile_picture: String::new(),
                        username: String::new(),
                        token: String::new(),
                    },
                ),
            ),
            CallbackReply::NoStatus => Err(ApiError::InvalidDataFormat),
            CallbackReply::Status { status: None, user } => Err(ApiError::InvalidDataFormat),
            CallbackReply::Status { status: Some(status), user } => {
                if str_eq(status.as_str(), "Invalid code") || str_eq(
                    status.as_str(),
                    "Not authenticated",
                ) {
                    Ok(None)
                } else {
                    match user {
                        Some(user) => Ok(
                            Some(
                                StrawberryId {
                                    email: or_empty(user.email),
                                    full_name: or_empty(user.full_name),
                                    profile_picture: or_empty(user.profile_picture),
                                    username: or_empty(user.username),
                                    token: or_empty(user.token),
                                },
                            ),
                        ),
                        None => Err(ApiError::InvalidDataFormat),
                    }
                }
            },
        }
    }

    /// Whether `reply` is the answer that a body holds, where `document` is
    /// what the body holds as JSON: the status is read from `data.status`,
    /// the account from the members of `data.user`.
    pub open spec fn reads_as(
        document: Option<Map<Seq<char>, (bool, Option<Seq<char>>)>>,
        reply: CallbackReply,
    ) -> bool {
        match document {
            None => reply is NotJson,
            Some(entries) => if !entries.contains_key("/data/status"@) {
                reply is NoStatus
            } else {
                &&& reply matches CallbackReply::Status { status, user }
                &&& text_of(status) == text_in(entries, "/data/status"@)
                &&& if object_in(entries, "/data/user"@) {
                    &&& user matches Some(account)
                    &&& text_of(account.email) == text_in(entries, "/data/user/email"@)
                    &&& text_of(account.full_name) == text_in(entries, "/data/user/full_name"@)
                    &&& text_of(account.profile_picture) == text_in(
                        entries,
                        "/data/user/profile_picture_url"@,
                    )
                    &&& text_of(account.username) == text_in(entries, "/data/user/username"@)
                    &&& text_of(account.token) == text_in(entries, "/data/user/token"@)
                } else {
                    user is None
                }
            },
        }
    }

    /// Reads the answer of the service from its body.
    pub fn read_reply(body: &str) -> (r: CallbackReply)
        ensures
            Self::reads_as(json_document(body@), r),
    {
        let document = match JSON::from_str(body) {
            Ok(document) => document,
            Err(_) => { return CallbackReply::NotJson; },
        };
        if !JSON::found_at(&document, "/data/status") {
            return CallbackReply::NoStatus;
        }
        let status = JSON::text_at(&document, "/data/status");
        let user = if JSON::object_at(&document, "/data/user") {
            Some(
                CallbackUser {
                    email: JSON::text_at(&document, "/data/user/email"),
                    full_name: JSON::text_at(&document, "/data/user/full_name"),
                    profile_picture: JSON::text_at(&document, "/data/user/profile_picture_url"),
                    username: JSON::text_at(&document, "/data/user/username"),
                    token: JSON::text_at(&document, "/data/user/token"),
                },
            )
        } else {
            None
        };
        CallbackReply::Status { status, user }
    }

    /// Fetch user data from the body of the service's answer to a login
    /// code: the result is what `from_reply` makes of the answer that the
    /// body holds.
    pub fn callback_body(body: &str) -> (r: Result<Option<Self>, ApiError>)
        ensures
            exists|reply: CallbackReply|
                Self::reads_as(json_document(body@), reply) && Self::answers(reply, r),
    {
        let reply = Self::read_reply(body);
        Self::from_reply(reply)
    }

    /// Convert struct `StrawberryID` to a `StrawberryIdCredentials` object
    #[must_use]
    pub fn to_credentials(self) -> (r: StrawberryIdCredentials)
        ensures
            r.username == self.username,
            r.token == self.token,
    {
        StrawberryIdCredentials { username: self.username, token: self.token }
    }
}

} // verus!
