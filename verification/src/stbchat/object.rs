//! The objects that packets carry: users and the API-response envelope.

use vstd::prelude::*;
use crate::stbchat::error::CommunicationError;
use crate::stbchat::wire::{
    entries, record_at, record_entry, record_field, text_at, text_entry, text_field, Field, WireValue,
};

verus! {

/// Who spoke.
#[derive(Default, Debug, Clone, PartialEq, Eq)]
pub struct User {
    pub username: String,
    pub nickname: String,
    pub badge: String,
    pub role_color: String,
    pub avatar_url: String,
}

/// The model of a `User`.
pub struct UserModel {
    pub username: Seq<char>,
    pub nickname: Seq<char>,
    pub badge: Seq<char>,
    pub role_color: Seq<char>,
    pub avatar_url: Seq<char>,
}

impl View for User {
    type V = UserModel;

    open spec fn view(&self) -> UserModel {
        UserModel {
            username: self.username@,
            nickname: self.nickname@,
            badge: self.badge@,
            role_color: self.role_color@,
            avatar_url: self.avatar_url@,
        }
    }
}

impl User {
    /// The record that carries a user.
    pub open spec fn record_of(m: UserModel) -> Seq<(Seq<char>, WireValue)> {
        seq![
            ("username"@, WireValue::Text(m.username)),
            ("nickname"@, WireValue::Text(m.nickname)),
            ("badge"@, WireValue::Text(m.badge)),
            ("role_color"@, WireValue::Text(m.role_color)),
            ("avatar_url"@, WireValue::Text(m.avatar_url)),
        ]
    }

    /// The user that a record carries, if it has exactly the layout of one.
    pub open spec fn parse(rec: Seq<(Seq<char>, WireValue)>) -> Option<UserModel> {
        if rec.len() == 5 && text_field(rec, 0, "username"@) is Some && text_field(
            rec,
            1,
            "nickname"@,
        ) is Some && text_field(rec, 2, "badge"@) is Some && text_field(rec, 3, "role_color"@)
            is Some && text_field(rec, 4, "avatar_url"@) is Some {
            Some(
                UserModel {
                    username: text_field(rec, 0, "username"@)->Some_0,
                    nickname: text_field(rec, 1, "nickname"@)->Some_0,
                    badge: text_field(rec, 2, "badge"@)->Some_0,
                    role_color: text_field(rec, 3, "role_color"@)->Some_0,
                    avatar_url: text_field(rec, 4, "avatar_url"@)->Some_0,
                },
            )
        } else {
            None
        }
    }

    /// Writes the user as a record.
    pub fn to_record(&self) -> (r: Vec<(String, Field)>)
        ensures
            entries(r@) == Self::record_of(self@),
    {
        let mut rec: Vec<(String, Field)> = Vec::new();
        rec.push(text_entry("username", self.username.as_str()));
        rec.push(text_entry("nickname", self.nickname.as_str()));
        rec.push(text_entry("badge", self.badge.as_str()));
        rec.push(text_entry("role_color", self.role_color.as_str()));
        rec.push(text_entry("avatar_url", self.avatar_url.as_str()));
        assert(entries(rec@) =~= Self::record_of(self@));
        rec
    }

    /// Reads a user from a record.
    pub fn from_record(rec: &Vec<(String, Field)>) -> (r: Option<User>)
        ensures
            match Self::parse(entries(rec@)) {
                Some(m) => r is Some && r->Some_0@ == m,
                None => r is None,
            },
    {
        if rec.len() != 5 {
            return None;
        }
        let username = match text_at(rec, 0, "username") {
            Some(t) => t,
            None => { return None; },
        };
        let nickname = match text_at(rec, 1, "nickname") {
            Some(t) => t,
            None => { return None; },
        };
        let badge = match text_at(rec, 2, "badge") {
            Some(t) => t,
            None => { return None; },
        };
        let role_color = match text_at(rec, 3, "role_color") {
            Some(t) => t,
            None => { return None; },
        };
        let avatar_url = match text_at(rec, 4, "avatar_url") {
            Some(t) => t,
            None => { return None; },
        };
        Some(User { username, nickname, badge, role_color, avatar_url })
    }
}

/// A record written from a user reads back as that user.
pub proof fn lemma_user_round_trip(m: UserModel)
    ensures
        User::parse(User::record_of(m)) == Some(m),
{
}

/// A record reads as a user only if it is the record written from that user.
pub proof fn lemma_user_parse_exact(rec: Seq<(Seq<char>, WireValue)>)
    requires
        User::parse(rec) is Some,
    ensures
        User::record_of(User::parse(rec)->Some_0) == rec,
{
    assert(User::record_of(User::parse(rec)->Some_0) =~= rec);
}

/// What the backend tells a client about its own account.
#[derive(Debug, Clone, PartialEq, Eq)]
pub struct UserMeta {
    pub username: String,
}

/// The model of a `UserMeta`.
pub struct UserMetaModel {
    pub username: Seq<char>,
}

impl View for UserMeta {
    type V = UserMetaModel;

    open spec fn view(&self) -> UserMetaModel {
        UserMetaModel { username: self.username@ }
    }
}

impl UserMeta {
    /// The record that carries the account data.
    pub open spec fn record_of(m: UserMetaModel) -> Seq<(Seq<char>, WireValue)> {
        seq![("username"@, WireValue::Text(m.username))]
    }

    /// The account data that a record carries, if it has exactly that layout.
    pub open spec fn parse(rec: Seq<(Seq<char>, WireValue)>) -> Option<UserMetaModel> {
        if rec.len() == 1 && text_field(rec, 0, "username"@) is Some {
            Some(UserMetaModel { username: text_field(rec, 0, "username"@)->Some_0 })
        } else {
            None
        }
    }

    /// Writes the account data as a record.
    pub fn to_record(&self) -> (r: Vec<(String, Field)>)
        ensures
            entries(r@) == Self::record_of(self@),
    {
        let mut rec: Vec<(String, Field)> = Vec::new();
        rec.push(text_entry("username", self.username.as_str()));
        assert(entries(rec@) =~= Self::record_of(self@));
        rec
    }

    /// Reads the account data from a record.
    pub fn from_record(rec: &Vec<(String, Field)>) -> (r: Option<UserMeta>)
        ensures
            match Self::parse(entries(rec@)) {
                Some(m) => r is Some && r->Some_0@ == m,
                None => r is None,
            },
    {
        if rec.len() != 1 {
            return None;
        }
        match text_at(rec, 0, "username") {
            Some(username) => Some(UserMeta { username }),
            None => None,
        }
    }
}

/// A record written from account data reads back as that data.
pub proof fn lemma_user_meta_round_trip(m: UserMetaModel)
    ensures
        UserMeta::parse(UserMeta::record_of(m)) == Some(m),
{
}

/// A record reads as account data only if it is the record written from
/// that data.
pub proof fn lemma_user_meta_parse_exact(rec: Seq<(Seq<char>, WireValue)>)
    requires
        UserMeta::parse(rec) is Some,
    ensures
        UserMeta::record_of(UserMeta::parse(rec)->Some_0) == rec,
{
    assert(UserMeta::record_of(UserMeta::parse(rec)->Some_0) =~= rec);
}

/// The envelope of an answer of the API, told apart by the field
/// `api_response`.
#[derive(Debug, Clone, PartialEq, Eq)]
pub enum StbchatApiResponse {
    /// Tag `user_joined`.
    UserJoined { username: String, nickname: String, role_color: String, badge: String },
    /// Tag `user_left`.
    UserLeft { username: String },
    /// Tag `user_data`.
    UserData { data: User },
}

/// The model of a `StbchatApiResponse`.
pub enum StbchatApiResponseModel {
    UserJoined {
        username: Seq<char>,
        nickname: Seq<char>,
        role_color: Seq<char>,
        badge: Seq<char>,
    },
    UserLeft { username: Seq<char> },
    UserData { data: UserModel },
}

impl View for StbchatApiResponse {
    type V = StbchatApiResponseModel;

    open spec fn view(&self) -> StbchatApiResponseModel {
        match self {
            StbchatApiResponse::UserJoined { username, nickname, role_color, badge } =>
                StbchatApiResponseModel::UserJoined {
                    username: username@,
                    nickname: nickname@,
                    role_color: role_color@,
                    badge: badge@,
                },
            StbchatApiResponse::UserLeft { username } => StbchatApiResponseModel::UserLeft {
                username: username@,
            },
            StbchatApiResponse::UserData { data } => StbchatApiResponseModel::UserData {
                data: data@,
            },
        }
    }
}

impl StbchatApiResponse {
    /// The tag that names a response on the wire.
    pub open spec fn tag_of(m: StbchatApiResponseModel) -> Seq<char> {
        match m {
            StbchatApiResponseModel::UserJoined { .. } => "user_joined"@,
            StbchatApiResponseModel::UserLeft { .. } => "user_left"@,
            StbchatApiResponseModel::UserData { .. } => "user_data"@,
        }
    }

    /// The record that carries a response: the tag first, then its fields.
    pub open spec fn record_of(m: StbchatApiResponseModel) -> Seq<(Seq<char>, WireValue)> {
        match m {
            StbchatApiResponseModel::UserJoined { username, nickname, role_color, badge } => seq![
                ("api_response"@, WireValue::Text("user_joined"@)),
                ("username"@, WireValue::Text(username)),
                ("nickname"@, WireValue::Text(nickname)),
                ("role_color"@, WireValue::Text(role_color)),
                ("badge"@, WireValue::Text(badge)),
            ],
            StbchatApiResponseModel::UserLeft { username } => seq![
                ("api_response"@, WireValue::Text("user_left"@)),
                ("username"@, WireValue::Text(username)),
            ],
            StbchatApiResponseModel::UserData { data } => seq![
                ("api_response"@, WireValue::Text("user_data"@)),
                ("data"@, WireValue::Record(User::record_of(data))),
            ],
        }
    }

    /// Whether `tag` names a response.
    pub open spec fn known_tag(tag: Seq<char>) -> bool {
        tag == "user_joined"@ || tag == "user_left"@ || tag == "user_data"@
    }

    /// The response that a record carries. A record without a known tag is
    /// an `UnknownTag`; one with a known tag and another layout than the
    /// tag's is an `InvalidPayload`.
    pub open spec fn parse(rec: Seq<(Seq<char>, WireValue)>) -> Result<
        StbchatApiResponseModel,
        CommunicationError,
    > {
        match text_field(rec, 0, "api_response"@) {
            None => Err(CommunicationError::UnknownTag),
            Some(tag) => if tag == "user_joined"@ {
                if rec.len() == 5 && text_field(rec, 1, "username"@) is Some && text_field(
                    rec,
                    2,
                    "nickname"@,
                ) is Some && text_field(rec, 3, "role_color"@) is Some && text_field(
                    rec,
                    4,
                    "badge"@,
                ) is Some {
                    Ok(
                        StbchatApiResponseModel::UserJoined {
                            username: text_field(rec, 1, "username"@)->Some_0,
                            nickname: text_field(rec, 2, "nickname"@)->Some_0,
                            role_color: text_field(rec, 3, "role_color"@)->Some_0,
                            badge: text_field(rec, 4, "badge"@)->Some_0,
                        },
                    )
                } else {
                    Err(CommunicationError::InvalidPayload)
                }
            } else if tag == "user_left"@ {
                if rec.len() == 2 && text_field(rec, 1, "username"@) is Some {
                    Ok(
                        StbchatApiResponseModel::UserLeft {
                            username: text_field(rec, 1, "username"@)->Some_0,
                        },
                    )
                } else {
                    Err(CommunicationError::InvalidPayload)
                }
            } else if tag == "user_data"@ {
                if rec.len() == 2 && record_field(rec, 1, "data"@) is Some && User::parse(
                    record_field(rec, 1, "data"@)->Some_0,
                ) is Some {
                    Ok(
                        StbchatApiResponseModel::UserData {
                            data: User::parse(record_field(rec, 1, "data"@)->Some_0)->Some_0,
                        },
                    )
                } else {
                    Err(CommunicationError::InvalidPayload)
                }
            } else {
                Err(CommunicationError::UnknownTag)
            },
        }
    }

    /// Writes the response as a record.
    pub fn to_record(&self) -> (r: Vec<(String, Field)>)
        ensures
            entries(r@) == Self::record_of(self@),
    {
        let mut rec: Vec<(String, Field)> = Vec::new();
        match self {
            StbchatApiResponse::UserJoined { username, nickname, role_color, badge } => {
                rec.push(text_entry("api_response", "user_joined"));
                rec.push(text_entry("username", username.as_str()));
                rec.push(text_entry("nickname", nickname.as_str()));
                rec.push(text_entry("role_color", role_color.as_str()));
                rec.push(text_entry("badge", badge.as_str()));
            },
            StbchatApiResponse::UserLeft { username } => {
                rec.push(text_entry("api_response", "user_left"));
                rec.push(text_entry("username", username.as_str()));
            },
            StbchatApiResponse::UserData { data } => {
                rec.push(text_entry("api_response", "user_data"));
                rec.push(record_entry("data", data.to_record()));
            },
        }
        assert(entries(rec@) =~= Self::record_of(self@));
        rec
    }

    /// Reads a response from a record, choosing the variant by the tag.
    pub fn from_record(rec: &Vec<(String, Field)>) -> (r: Result<
        StbchatApiResponse,
        CommunicationError,
    >)
        ensures
            match Self::parse(entries(rec@)) {
                Ok(m) => r is Ok && r->Ok_0@ == m,
                Err(e) => r is Err && r->Err_0 == e,
            },
    {
        let tag = match text_at(rec, 0, "api_response") {
            Some(t) => t,
            None => { return Err(CommunicationError::UnknownTag); },
        };
        if crate::text::str_eq(tag.as_str(), "user_joined") {
            if rec.len() != 5 {
                return Err(CommunicationError::InvalidPayload);
            }
            let username = match text_at(rec, 1, "username") {
                Some(t) => t,
                None => { return Err(CommunicationError::InvalidPayload); },
            };
            let nickname = match text_at(rec, 2, "nickname") {
                Some(t) => t,
                None => { return Err(CommunicationError::InvalidPayload); },
            };
            let role_color = match text_at(rec, 3, "role_color") {
                Some(t) => t,
                None => { return Err(CommunicationError::InvalidPayload); },
            };
            let badge = match text_at(rec, 4, "badge") {
                Some(t) => t,
                None => { return Err(CommunicationError::InvalidPayload); },
            };
            Ok(StbchatApiResponse::UserJoined { username, nickname, role_color, badge })
        } else if crate::text::str_eq(tag.as_str(), "user_left") {
            if rec.len() != 2 {
                return Err(CommunicationError::InvalidPayload);
            }
            match text_at(rec, 1, "username") {
                Some(username) => Ok(StbchatApiResponse::UserLeft { username }),
                None => Err(CommunicationError::InvalidPayload),
            }
        } else if crate::text::str_eq(tag.as_str(), "user_data") {
            if rec.len() != 2 {
                return Err(CommunicationError::InvalidPayload);
            }
            let fields = match record_at(rec, 1, "data") {
                Some(f) => f,
                None => { return Err(CommunicationError::InvalidPayload); },
            };
            match User::from_record(fields) {
                Some(data) => Ok(StbchatApiResponse::UserData { data }),
                None => Err(CommunicationError::InvalidPayload),
            }
        } else {
            Err(CommunicationError::UnknownTag)
        }
    }
}

/// The three tags of the envelope differ from one another.
pub proof fn lemma_api_tags_distinct()
    ensures
        "user_joined"@ != "user_left"@,
        "user_joined"@ != "user_data"@,
        "user_left"@ != "user_data"@,
{
    reveal_strlit("user_joined");
    reveal_strlit("user_left");
    reveal_strlit("user_data");
    assert("user_left"@[5] == 'l');
    assert("user_data"@[5] == 'd');
}

/// A record written from a response reads back as that response.
pub proof fn lemma_api_response_round_trip(m: StbchatApiResponseModel)
    ensures
        StbchatApiResponse::parse(StbchatApiResponse::record_of(m)) == Ok::<
            StbchatApiResponseModel,
            CommunicationError,
        >(m),
{
    lemma_api_tags_distinct();
    match m {
        StbchatApiResponseModel::UserData { data } => {
            lemma_user_round_trip(data);
        },
        _ => {},
    }
}

/// A record reads as a response only if it is the record written from that
/// response.
pub proof fn lemma_api_response_parse_exact(rec: Seq<(Seq<char>, WireValue)>)
    requires
        StbchatApiResponse::parse(rec) is Ok,
    ensures
        StbchatApiResponse::record_of(StbchatApiResponse::parse(rec)->Ok_0) == rec,
{
    lemma_api_tags_distinct();
    let m = StbchatApiResponse::parse(rec)->Ok_0;
    match m {
        StbchatApiResponseModel::UserData { data } => {
            lemma_user_parse_exact(record_field(rec, 1, "data"@)->Some_0);
        },
        _ => {},
    }
    assert(StbchatApiResponse::record_of(m) =~= rec);
}

/// A record whose first field is no known tag reads as no response: it is
/// an `UnknownTag`, and nothing else is.
pub proof fn lemma_api_response_unknown_tag(rec: Seq<(Seq<char>, WireValue)>)
    ensures
        StbchatApiResponse::parse(rec) == Err::<StbchatApiResponseModel, CommunicationError>(
            CommunicationError::UnknownTag,
        ) <==> !(text_field(rec, 0, "api_response"@) matches Some(tag)
            && StbchatApiResponse::known_tag(tag)),
{
}

} // verus!
