//! Checking stored credentials against the service.

use vstd::prelude::*;
use crate::fmt::{json_document, text_in, text_of, JSON};
use crate::id::error::VerifierError;
use crate::id::StrawberryId;
use crate::text::str_eq;

verus! {

/// The account that the service confirmed.
#[derive(Debug, Clone, Default, PartialEq, Eq)]
pub struct StrawberryIdVerifier {
    pub strawberry_id: StrawberryId,
}

/// What the service answered to a pair of credentials.
#[derive(Debug, Clone, PartialEq, Eq)]
pub struct VerifyReply {
    /// The text of `data.status`, where it is there and is a string.
    pub status: Option<String>,
    /// Of each member of `data.user` its text, where it is a string.
    pub full_name: Option<String>,
    pub email: Option<String>,
    pub profile_picture: Option<String>,
    pub username: Option<String>,
}

impl VerifyReply {
    /// Whether the service confirmed the credentials.
    pub open spec fn confirmed(&self) -> bool {
        self.status matches Some(status) && status@ == "Ok"@
    }

    /// Whether the answer names the whole account.
    pub open spec fn complete(&self) -> bool {
        self.full_name is Some && self.email is Some && self.profile_picture is Some
            && self.username is Some
    }
}

impl StrawberryIdVerifier {
    /// Whether this is the account that `reply` names. The token is not
    /// part of the answer and stays empty.
    pub open spec fn names(&self, reply: VerifyReply) -> bool {
        &&& reply.complete()
        &&& self.strawberry_id.full_name == reply.full_name->Some_0
        &&& self.strawberry_id.email == reply.email->Some_0
        &&& self.strawberry_id.profile_picture == reply.profile_picture->Some_0
        &&& self.strawberry_id.username == reply.username->Some_0
        &&& self.strawberry_id.token@.len() == 0
    }

    /// Turns the answer of the service into the confirmed account. An
    /// answer that does not confirm is `InvalidCredentials`. One that
    /// confirms names the whole account.
    pub fn from_reply(reply: VerifyReply) -> (r: Result<Self, VerifierError>)
        requires
            reply.confirmed() ==> reply.complete(),
        ensures
            reply.confirmed() ==> (r matches Ok(verifier) && verifier.names(reply)),
            !reply.confirmed() ==> r == Err::<Self, VerifierError>(
                VerifierError::InvalidCredentials,
            ),
    {
        let confirmed = match &reply.status {
            Some(status) => str_eq(status.as_str(), "Ok"),
            None => false,
        };
        if !confirmed {
            return Err(VerifierError::InvalidCredentials);
        }
        match (reply.full_name, reply.email, reply.profile_picture, reply.username) {
            (Some(full_name), Some(email), Some(profile_picture), Some(username)) => Ok(
                StrawberryIdVerifier {
                    strawberry_id: StrawberryId {
                        email,
                        full_name,
                        profile_picture,
                        username,
                        token: String::new(),
                    },
                },
            ),
            _ => Err(VerifierError::InvalidCredentials),
        }
    }

    /// Whether `reply` is the answer that a body holds, where `document` is
    /// what the body holds as JSON: the status is read from `data.status`,
    /// the account from the members of `data.user`. A body that is no JSON
    /// holds nothing.
    pub open spec fn reads_as(
        document: Option<Map<Seq<char>, (bool, Option<Seq<char>>)>>,
        reply: VerifyReply,
    ) -> bool {
        match document {
            None => {
                &&& reply.status is None
                &&& reply.full_name is None
                &&& reply.email is None
                &&& reply.profile_picture is None
                &&& reply.username is None
            },
            Some(entries) => {
                &&& text_of(reply.status) == text_in(entries, "/data/status"@)
                &&& text_of(reply.full_name) == text_in(entries, "/data/user/full_name"@)
                &&& text_of(reply.email) == text_in(entries, "/data/user/email"@)
                &&& text_of(reply.profile_picture) == text_in(
                    entries,
                    "/data/user/profile_picture_url"@,
                )
                &&& text_of(reply.username) == text_in(entries, "/data/user/username"@)
            },
        }
    }

    /// Whether `result` is what the answer `reply` means: the account
    /// that it names where it confirms and names the whole account, and
    /// `InvalidCredentials` otherwise.
    pub open spec fn answers(reply: VerifyReply, result: Result<Self, VerifierError>) -> bool {
        if reply.confirmed() && reply.complete() {
            result matches Ok(verifier) && verifier.names(reply)
        } else {
            result == Err::<Self, VerifierError>(VerifierError::InvalidCredentials)
        }
    }

    /// Reads the answer of the service from its body.
    pub fn read_reply(body: &str) -> (r: VerifyReply)
        ensures
            Self::reads_as(json_document(body@), r),
    {
        match JSON::from_str(body) {
            Ok(document) => VerifyReply {
                status: JSON::text_at(&document, "/data/status"),
                full_name: JSON::text_at(&document, "/data/user/full_name"),
                email: JSON::text_at(&document, "/data/user/email"),
                profile_picture: JSON::text_at(&document, "/data/user/profile_picture_url"),
                username: JSON::text_at(&document, "/data/user/username"),
            },
            Err(_) => VerifyReply {
                status: None,
                full_name: None,
                email: None,
                profile_picture: None,
                username: None,
            },
        }
    }

    /// Verifies credentials from the body of the service's answer. An
    /// answer that confirms and does not name the whole account is
    /// refused like one that does not confirm.
    pub fn verify_body(body: &str) -> (r: Result<Self, VerifierError>)
        ensures
            exists|reply: VerifyReply|
                Self::reads_as(json_document(body@), reply) && Self::answers(reply, r),
    {
        let reply = Self::read_reply(body);
        let whole = reply.full_name.is_some() && reply.email.is_some()
            && reply.profile_picture.is_some() && reply.username.is_some();
        if whole {
            let r = Self::from_reply(reply);
            assert(Self::answers(reply, r));
            r
        } else {
            let r = Err(VerifierError::InvalidCredentials);
            assert(Self::answers(reply, r));
            r
        }
    }
}

} // verus!
