//! The packets of both directions and their layout on the wire.
//!
//! Every packet travels as a record whose first field, `packet_type`, holds
//! the packet's tag. The tags are fixed by the tables in this file and are
//! never derived from a type's name; the fields follow in the order in which
//! the variant declares them, each under its own name.

use vstd::prelude::*;
use crate::stbchat::error::CommunicationError;
use crate::stbchat::object::{
    lemma_api_response_parse_exact, lemma_api_response_round_trip, lemma_user_meta_parse_exact,
    lemma_user_parse_exact, lemma_user_round_trip, StbchatApiResponse, StbchatApiResponseModel,
    User, UserMeta, UserMetaModel, UserModel,
};
use crate::stbchat::wire::{
    entries, flag_at, flag_entry, flag_field, lemma_record_view, record_at, record_entry,
    record_field, text_at, text_entry, text_field, Field, WireValue,
};
use crate::text::str_eq;

verus! {

/// A packet sent from the server to the client.
#[derive(Debug, Clone, PartialEq, Eq)]
pub enum ClientPacket {
    /// A message sent from the system. Tag `system_message`.
    SystemMessage { message: String },
    /// A message sent from a user. Tag `user_message`.
    UserMessage { author: User, message: String },
    /// Tells the client to show a notification. Tag `notification_backend`.
    Notification { title: String, username: String, avatar_url: String, content: String, bell: bool },
    /// An event of the chat. Tag `stbchat_event`.
    Event { event_type: String },
    /// Sends the username to the client. Tag `stbchat_backend`.
    Backend { user_meta: UserMeta },
    /// An answer of the API. Tag `stbchat_api`.
    ApiResponse { response_type: String, response: StbchatApiResponse },
}

/// The model of a `ClientPacket`.
pub enum ClientPacketModel {
    SystemMessage { message: Seq<char> },
    UserMessage { author: UserModel, message: Seq<char> },
    Notification {
        title: Seq<char>,
        username: Seq<char>,
        avatar_url: Seq<char>,
        content: Seq<char>,
        bell: bool,
    },
    Event { event_type: Seq<char> },
    Backend { user_meta: UserMetaModel },
    ApiResponse { response_type: Seq<char>, response: StbchatApiResponseModel },
}

impl View for ClientPacket {
    type V = ClientPacketModel;

    open spec fn view(&self) -> ClientPacketModel {
        match self {
            ClientPacket::SystemMessage { message } => ClientPacketModel::SystemMessage {
                message: message@,
            },
            ClientPacket::UserMessage { author, message } => ClientPacketModel::UserMessage {
                author: author@,
                message: message@,
            },
            ClientPacket::Notification { title, username, avatar_url, content, bell } =>
                ClientPacketModel::Notification {
                    title: title@,
                    username: username@,
                    avatar_url: avatar_url@,
                    content: content@,
                    bell: *bell,
                },
            ClientPacket::Event { event_type } => ClientPacketModel::Event {
                event_type: event_type@,
            },
            ClientPacket::Backend { user_meta } => ClientPacketModel::Backend {
                user_meta: user_meta@,
            },
            ClientPacket::ApiResponse { response_type, response } =>
                ClientPacketModel::ApiResponse {
                    response_type: response_type@,
                    response: response@,
                },
        }
    }
}

impl ClientPacket {
    /// The record that carries a packet: the tag first, then its fields.
    pub open spec fn record_of(m: ClientPacketModel) -> Seq<(Seq<char>, WireValue)> {
        match m {
            ClientPacketModel::SystemMessage { message } => seq![
                ("packet_type"@, WireValue::Text("system_message"@)),
                ("message"@, WireValue::Text(message)),
            ],
            ClientPacketModel::UserMessage { author, message } => seq![
                ("packet_type"@, WireValue::Text("user_message"@)),
                ("author"@, WireValue::Record(User::record_of(author))),
                ("message"@, WireValue::Text(message)),
            ],
            ClientPacketModel::Notification { title, username, avatar_url, content, bell } => seq![
                ("packet_type"@, WireValue::Text("notification_backend"@)),
                ("title"@, WireValue::Text(title)),
                ("username"@, WireValue::Text(username)),
                ("avatar_url"@, WireValue::Text(avatar_url)),
                ("content"@, WireValue::Text(content)),
                ("bell"@, WireValue::Flag(bell)),
            ],
            ClientPacketModel::Event { event_type } => seq![
                ("packet_type"@, WireValue::Text("stbchat_event"@)),
                ("event_type"@, WireValue::Text(event_type)),
            ],
            ClientPacketModel::Backend { user_meta } => seq![
                ("packet_type"@, WireValue::Text("stbchat_backend"@)),
                ("user_meta"@, WireValue::Record(UserMeta::record_of(user_meta))),
            ],
            ClientPacketModel::ApiResponse { response_type, response } => seq![
                ("packet_type"@, WireValue::Text("stbchat_api"@)),
                ("response_type"@, WireValue::Text(response_type)),
                ("response"@, WireValue::Record(StbchatApiResponse::record_of(response))),
            ],
        }
    }

    /// Whether `tag` names a packet of this direction.
    pub open spec fn known_tag(tag: Seq<char>) -> bool {
        ||| tag == "system_message"@
        ||| tag == "user_message"@
        ||| tag == "notification_backend"@
        ||| tag == "stbchat_event"@
        ||| tag == "stbchat_backend"@
        ||| tag == "stbchat_api"@
    }

    /// The packet that a record with the tag `system_message` carries.
    pub open spec fn parse_system_message(rec: Seq<(Seq<char>, WireValue)>) -> Result<
        ClientPacketModel,
        CommunicationError,
    > {
        if rec.len() == 2 && text_field(rec, 1, "message"@) is Some {
            Ok(ClientPacketModel::SystemMessage { message: text_field(rec, 1, "message"@)->Some_0 })
        } else {
            Err(CommunicationError::InvalidPayload)
        }
    }

    /// The packet that a record with the tag `user_message` carries.
    pub open spec fn parse_user_message(rec: Seq<(Seq<char>, WireValue)>) -> Result<
        ClientPacketModel,
        CommunicationError,
    > {
        if rec.len() == 3 && record_field(rec, 1, "author"@) is Some && User::parse(
            record_field(rec, 1, "author"@)->Some_0,
        ) is Some && text_field(rec, 2, "message"@) is Some {
            Ok(
                ClientPacketModel::UserMessage {
                    author: User::parse(record_field(rec, 1, "author"@)->Some_0)->Some_0,
                    message: text_field(rec, 2, "message"@)->Some_0,
                },
            )
        } else {
            Err(CommunicationError::InvalidPayload)
        }
    }

    /// The packet that a record with the tag `notification_backend` carries.
    pub open spec fn parse_notification(rec: Seq<(Seq<char>, WireValue)>) -> Result<
        ClientPacketModel,
        CommunicationError,
    > {
        if rec.len() == 6 && text_field(rec, 1, "title"@) is Some && text_field(
            rec,
            2,
            "username"@,
        ) is Some && text_field(rec, 3, "avatar_url"@) is Some && text_field(rec, 4, "content"@)
            is Some && flag_field(rec, 5, "bell"@) is Some {
            Ok(
                ClientPacketModel::Notification {
                    title: text_field(rec, 1, "title"@)->Some_0,
                    username: text_field(rec, 2, "username"@)->Some_0,
                    avatar_url: text_field(rec, 3, "avatar_url"@)->Some_0,
                    content: text_field(rec, 4, "content"@)->Some_0,
                    bell: flag_field(rec, 5, "bell"@)->Some_0,
                },
            )
        } else {
            Err(CommunicationError::InvalidPayload)
        }
    }

    /// The packet that a record with the tag `stbchat_event` carries.
    pub open spec fn parse_event(rec: Seq<(Seq<char>, WireValue)>) -> Result<
        ClientPacketModel,
        CommunicationError,
    > {
        if rec.len() == 2 && text_field(rec, 1, "event_type"@) is Some {
            Ok(ClientPacketModel::Event { event_type: text_field(rec, 1, "event_type"@)->Some_0 })
        } else {
            Err(CommunicationError::InvalidPayload)
        }
    }

    /// The packet that a record with the tag `stbchat_backend` carries.
    pub open spec fn parse_backend(rec: Seq<(Seq<char>, WireValue)>) -> Result<
        ClientPacketModel,
        CommunicationError,
    > {
        if rec.len() == 2 && record_field(rec, 1, "user_meta"@) is Some && UserMeta::parse(
            record_field(rec, 1, "user_meta"@)->Some_0,
        ) is Some {
            Ok(
                ClientPacketModel::Backend {
                    user_meta: UserMeta::parse(record_field(rec, 1, "user_meta"@)->Some_0)->Some_0,
                },
            )
        } else {
            Err(CommunicationError::InvalidPayload)
        }
    }

    /// The packet that a record with the tag `stbchat_api` carries. What
    /// the envelope inside it fails with, the packet fails with.
    pub open spec fn parse_api_response(rec: Seq<(Seq<char>, WireValue)>) -> Result<
        ClientPacketModel,
        CommunicationError,
    > {
        if rec.len() == 3 && text_field(rec, 1, "response_type"@) is Some && record_field(
            rec,
            2,
            "response"@,
        ) is Some {
            match StbchatApiResponse::parse(record_field(rec, 2, "response"@)->Some_0) {
                Ok(response) => Ok(
                    ClientPacketModel::ApiResponse {
                        response_type: text_field(rec, 1, "response_type"@)->Some_0,
                        response,
                    },
                ),
                Err(e) => Err(e),
            }
        } else {
            Err(CommunicationError::InvalidPayload)
        }
    }

    /// The packet that a record carries. The tag selects the variant and the
    /// variant's layout is then read. A record without a known tag is an
    /// `UnknownTag`, never a default variant; one with a known tag and
    /// another layout than the tag's is an `InvalidPayload`.
    pub open spec fn parse(rec: Seq<(Seq<char>, WireValue)>) -> Result<
        ClientPacketModel,
        CommunicationError,
    > {
        match text_field(rec, 0, "packet_type"@) {
            None => Err(CommunicationError::UnknownTag),
            Some(tag) => if tag == "system_message"@ {
                Self::parse_system_message(rec)
            } else if tag == "user_message"@ {
                Self::parse_user_message(rec)
            } else if tag == "notification_backend"@ {
                Self::parse_notification(rec)
            } else if tag == "stbchat_event"@ {
                Self::parse_event(rec)
            } else if tag == "stbchat_backend"@ {
                Self::parse_backend(rec)
            } else if tag == "stbchat_api"@ {
                Self::parse_api_response(rec)
            } else {
                Err(CommunicationError::UnknownTag)
            },
        }
    }

    /// The packet that a wire value carries: a value that is no record
    /// carries no tag.
    pub open spec fn parse_value(value: WireValue) -> Result<ClientPacketModel, CommunicationError> {
        match value {
            WireValue::Record(rec) => Self::parse(rec),
            _ => Err(CommunicationError::UnknownTag),
        }
    }

    /// Writes the packet as a wire value.
    pub fn encode(&self) -> (r: Field)
        ensures
            r@ == WireValue::Record(Self::record_of(self@)),
    {
        let mut rec: Vec<(String, Field)> = Vec::new();
        match self {
            ClientPacket::SystemMessage { message } => {
                rec.push(text_entry("packet_type", "system_message"));
                rec.push(text_entry("message", message.as_str()));
            },
            ClientPacket::UserMessage { author, message } => {
                rec.push(text_entry("packet_type", "user_message"));
                rec.push(record_entry("author", author.to_record()));
                rec.push(text_entry("message", message.as_str()));
            },
            ClientPacket::Notification { title, username, avatar_url, content, bell } => {
                rec.push(text_entry("packet_type", "notification_backend"));
                rec.push(text_entry("title", title.as_str()));
                rec.push(text_entry("username", username.as_str()));
                rec.push(text_entry("avatar_url", avatar_url.as_str()));
                rec.push(text_entry("content", content.as_str()));
                rec.push(flag_entry("bell", *bell));
            },
            ClientPacket::Event { event_type } => {
                rec.push(text_entry("packet_type", "stbchat_event"));
                rec.push(text_entry("event_type", event_type.as_str()));
            },
            ClientPacket::Backend { user_meta } => {
                rec.push(text_entry("packet_type", "stbchat_backend"));
                rec.push(record_entry("user_meta", user_meta.to_record()));
            },
            ClientPacket::ApiResponse { response_type, response } => {
                rec.push(text_entry("packet_type", "stbchat_api"));
                rec.push(text_entry("response_type", response_type.as_str()));
                rec.push(record_entry("response", response.to_record()));
            },
        }
        assert(entries(rec@) =~= Self::record_of(self@));
        proof {
            lemma_record_view(rec);
        }
        Field::Record(rec)
    }

    /// Reads a packet from a wire value, choosing the variant by the tag.
    pub fn decode(value: &Field) -> (r: Result<ClientPacket, CommunicationError>)
        ensures
            match Self::parse_value(value@) {
                Ok(m) => r is Ok && r->Ok_0@ == m,
                Err(e) => r is Err && r->Err_0 == e,
            },
    {
        let rec = match value {
            Field::Record(rec) => {
                proof {
                    lemma_record_view(*rec);
                }
                rec
            },
            _ => { return Err(CommunicationError::UnknownTag); },
        };
        let tag = match text_at(rec, 0, "packet_type") {
            Some(t) => t,
            None => { return Err(CommunicationError::UnknownTag); },
        };
        if str_eq(tag.as_str(), "system_message") {
            if rec.len() != 2 {
                return Err(CommunicationError::InvalidPayload);
            }
            match text_at(rec, 1, "message") {
                Some(message) => Ok(ClientPacket::SystemMessage { message }),
                None => Err(CommunicationError::InvalidPayload),
            }
        } else if str_eq(tag.as_str(), "user_message") {
            if rec.len() != 3 {
                return Err(CommunicationError::InvalidPayload);
            }
            let fields = match record_at(rec, 1, "author") {
                Some(f) => f,
                None => { return Err(CommunicationError::InvalidPayload); },
            };
            let author = match User::from_record(fields) {
                Some(u) => u,
                None => { return Err(CommunicationError::InvalidPayload); },
            };
            match text_at(rec, 2, "message") {
                Some(message) => Ok(ClientPacket::UserMessage { author, message }),
                None => Err(CommunicationError::InvalidPayload),
            }
        } else if str_eq(tag.as_str(), "notification_backend") {
            if rec.len() != 6 {
                return Err(CommunicationError::InvalidPayload);
            }
            let title = match text_at(rec, 1, "title") {
                Some(t) => t,
                None => { return Err(CommunicationError::InvalidPayload); },
            };
            let username = match text_at(rec, 2, "username") {
                Some(t) => t,
                None => { return Err(CommunicationError::InvalidPayload); },
            };
            let avatar_url = match text_at(rec, 3, "avatar_url") {
                Some(t) => t,
                None => { return Err(CommunicationError::InvalidPayload); },
            };
            let content = match text_at(rec, 4, "content") {
                Some(t) => t,
                None => { return Err(CommunicationError::InvalidPayload); },
            };
            match flag_at(rec, 5, "bell") {
                Some(bell) => Ok(
                    ClientPacket::Notification { title, username, avatar_url, content, bell },
                ),
                None => Err(CommunicationError::InvalidPayload),
            }
        } else if str_eq(tag.as_str(), "stbchat_event") {
            if rec.len() != 2 {
                return Err(CommunicationError::InvalidPayload);
            }
            match text_at(rec, 1, "event_type") {
                Some(event_type) => Ok(ClientPacket::Event { event_type }),
                None => Err(CommunicationError::InvalidPayload),
            }
        } else if str_eq(tag.as_str(), "stbchat_backend") {
            if rec.len() != 2 {
                return Err(CommunicationError::InvalidPayload);
            }
            let fields = match record_at(rec, 1, "user_meta") {
                Some(f) => f,
                None => { return Err(CommunicationError::InvalidPayload); },
            };
            match UserMeta::from_record(fields) {
                Some(user_meta) => Ok(ClientPacket::Backend { user_meta }),
                None => Err(CommunicationError::InvalidPayload),
            }
        } else if str_eq(tag.as_str(), "stbchat_api") {
            if rec.len() != 3 {
                return Err(CommunicationError::InvalidPayload);
            }
            let response_type = match text_at(rec, 1, "response_type") {
                Some(t) => t,
                None => { return Err(CommunicationError::InvalidPayload); },
            };
            let fields = match record_at(rec, 2, "response") {
                Some(f) => f,
                None => { return Err(CommunicationError::InvalidPayload); },
            };
            match StbchatApiResponse::from_record(fields) {
                Ok(response) => Ok(ClientPacket::ApiResponse { response_type, response }),
                Err(e) => Err(e),
            }
        } else {
            Err(CommunicationError::UnknownTag)
        }
    }
}

/// The six tags of the server's packets differ from one another.
pub proof fn lemma_client_tags_distinct()
    ensures
        "system_message"@.len() == 14,
        "user_message"@.len() == 12,
        "notification_backend"@.len() == 20,
        "stbchat_event"@.len() == 13,
        "stbchat_backend"@.len() == 15,
        "stbchat_api"@.len() == 11,
{
    reveal_strlit("system_message");
    reveal_strlit("user_message");
    reveal_strlit("notification_backend");
    reveal_strlit("stbchat_event");
    reveal_strlit("stbchat_backend");
    reveal_strlit("stbchat_api");
}

/// Decoding what was encoded gives the packet back: for every packet of the
/// server's direction, the record written from it reads as that packet.
pub proof fn lemma_client_packet_round_trip(m: ClientPacketModel)
    ensures
        ClientPacket::parse_value(WireValue::Record(ClientPacket::record_of(m))) == Ok::<
            ClientPacketModel,
            CommunicationError,
        >(m),
{
    lemma_client_tags_distinct();
    match m {
        ClientPacketModel::UserMessage { author, message } => {
            lemma_user_round_trip(author);
        },
        ClientPacketModel::ApiResponse { response_type, response } => {
            lemma_api_response_round_trip(response);
        },
        _ => {},
    }
}

/// A record reads as a packet of the server's direction only if it is the
/// record written from that packet: the decoder accepts what the encoder
/// writes and nothing else.
pub proof fn lemma_client_packet_parse_exact(rec: Seq<(Seq<char>, WireValue)>)
    requires
        ClientPacket::parse(rec) is Ok,
    ensures
        ClientPacket::record_of(ClientPacket::parse(rec)->Ok_0) == rec,
{
    lemma_client_tags_distinct();
    let m = ClientPacket::parse(rec)->Ok_0;
    match m {
        ClientPacketModel::UserMessage { author, message } => {
            lemma_user_parse_exact(record_field(rec, 1, "author"@)->Some_0);
        },
        ClientPacketModel::Backend { user_meta } => {
            lemma_user_meta_parse_exact(record_field(rec, 1, "user_meta"@)->Some_0);
        },
        ClientPacketModel::ApiResponse { response_type, response } => {
            lemma_api_response_parse_exact(record_field(rec, 2, "response"@)->Some_0);
        },
        _ => {},
    }
    assert(ClientPacket::record_of(m) =~= rec);
}

/// A record whose first field is no known tag of the server's direction is
/// an `UnknownTag`, never a default variant.
pub proof fn lemma_client_unknown_tag(rec: Seq<(Seq<char>, WireValue)>)
    requires
        !(text_field(rec, 0, "packet_type"@) matches Some(tag) && ClientPacket::known_tag(tag)),
    ensures
        ClientPacket::parse(rec) == Err::<ClientPacketModel, CommunicationError>(
            CommunicationError::UnknownTag,
        ),
{
}

/// A packet sent from the client to the server.
#[derive(Debug, Clone, PartialEq, Eq)]
pub enum ServerPacket {
    /// The user's credentials. Tag `Login`.
    Login { username: String, password: String },
    /// A new account. Tag `Register`.
    Register { username: String, password: String, role_color: String },
    /// A message sent from the client. Tag `Message`.
    Message { message: String },
    /// A question to the API. Tag `ApiRequest`.
    ApiRequest { request_type: String },
}

/// The model of a `ServerPacket`.
pub enum ServerPacketModel {
    Login { username: Seq<char>, password: Seq<char> },
    Register { username: Seq<char>, password: Seq<char>, role_color: Seq<char> },
    Message { message: Seq<char> },
    ApiRequest { request_type: Seq<char> },
}

impl View for ServerPacket {
    type V = ServerPacketModel;

    open spec fn view(&self) -> ServerPacketModel {
        match self {
            ServerPacket::Login { username, password } => ServerPacketModel::Login {
                username: username@,
                password: password@,
            },
            ServerPacket::Register { username, password, role_color } =>
                ServerPacketModel::Register {
                    username: username@,
                    password: password@,
                    role_color: role_color@,
                },
            ServerPacket::Message { message } => ServerPacketModel::Message { message: message@ },
            ServerPacket::ApiRequest { request_type } => ServerPacketModel::ApiRequest {
                request_type: request_type@,
            },
        }
    }
}

impl ServerPacket {
    /// The record that carries a packet: the tag first, then its fields.
    pub open spec fn record_of(m: ServerPacketModel) -> Seq<(Seq<char>, WireValue)> {
        match m {
            ServerPacketModel::Login { username, password } => seq![
                ("packet_type"@, WireValue::Text("Login"@)),
                ("username"@, WireValue::Text(username)),
                ("password"@, WireValue::Text(password)),
            ],
            ServerPacketModel::Register { username, password, role_color } => seq![
                ("packet_type"@, WireValue::Text("Register"@)),
                ("username"@, WireValue::Text(username)),
                ("password"@, WireValue::Text(password)),
                ("role_color"@, WireValue::Text(role_color)),
            ],
            ServerPacketModel::Message { message } => seq![
                ("packet_type"@, WireValue::Text("Message"@)),
                ("message"@, WireValue::Text(message)),
            ],
            ServerPacketModel::ApiRequest { request_type } => seq![
                ("packet_type"@, WireValue::Text("ApiRequest"@)),
                ("request_type"@, WireValue::Text(request_type)),
            ],
        }
    }

    /// Whether `tag` names a packet of this direction.
    pub open spec fn known_tag(tag: Seq<char>) -> bool {
        tag == "Login"@ || tag == "Register"@ || tag == "Message"@ || tag == "ApiRequest"@
    }

    /// The packet that a record carries. A record without a known tag is an
    /// `UnknownTag`; one with a known tag and another layout than the tag's
    /// is an `InvalidPayload`.
    pub open spec fn parse(rec: Seq<(Seq<char>, WireValue)>) -> Result<
        ServerPacketModel,
        CommunicationError,
    > {
        match text_field(rec, 0, "packet_type"@) {
            None => Err(CommunicationError::UnknownTag),
            Some(tag) => if tag == "Login"@ {
                if rec.len() == 3 && text_field(rec, 1, "username"@) is Some && text_field(
                    rec,
                    2,
                    "password"@,
                ) is Some {
                    Ok(
                        ServerPacketModel::Login {
                            username: text_field(rec, 1, "username"@)->Some_0,
                            password: text_field(rec, 2, "password"@)->Some_0,
                        },
                    )
                } else {
                    Err(CommunicationError::InvalidPayload)
                }
            } else if tag == "Register"@ {
                if rec.len() == 4 && text_field(rec, 1, "username"@) is Some && text_field(
                    rec,
                    2,
                    "password"@,
                ) is Some && text_field(rec, 3, "role_color"@) is Some {
                    Ok(
                        ServerPacketModel::Register {
                            username: text_field(rec, 1, "username"@)->Some_0,
                            password: text_field(rec, 2, "password"@)->Some_0,
                            role_color: text_field(rec, 3, "role_color"@)->Some_0,
                        },
                    )
                } else {
                    Err(CommunicationError::InvalidPayload)
                }
            } else if tag == "Message"@ {
                if rec.len() == 2 && text_field(rec, 1, "message"@) is Some {
                    Ok(
                        ServerPacketModel::Message {
                            message: text_field(rec, 1, "message"@)->Some_0,
                        },
                    )
                } else {
                    Err(CommunicationError::InvalidPayload)
                }
            } else if tag == "ApiRequest"@ {
                if rec.len() == 2 && text_field(rec, 1, "request_type"@) is Some {
                    Ok(
                        ServerPacketModel::ApiRequest {
                            request_type: text_field(rec, 1, "request_type"@)->Some_0,
                        },
                    )
                } else {
                    Err(CommunicationError::InvalidPayload)
                }
            } else {
                Err(CommunicationError::UnknownTag)
            },
        }
    }

    /// The packet that a wire value carries: a value that is no record
    /// carries no tag.
    pub open spec fn parse_value(value: WireValue) -> Result<ServerPacketModel, CommunicationError> {
        match value {
            WireValue::Record(rec) => Self::parse(rec),
            _ => Err(CommunicationError::UnknownTag),
        }
    }

    /// Writes the packet as a wire value.
    pub fn encode(&self) -> (r: Field)
        ensures
            r@ == WireValue::Record(Self::record_of(self@)),
    {
        let mut rec: Vec<(String, Field)> = Vec::new();
        match self {
            ServerPacket::Login { username, password } => {
                rec.push(text_entry("packet_type", "Login"));
                rec.push(text_entry("username", username.as_str()));
                rec.push(text_entry("password", password.as_str()));
            },
            ServerPacket::Register { username, password, role_color } => {
                rec.push(text_entry("packet_type", "Register"));
                rec.push(text_entry("username", username.as_str()));
                rec.push(text_entry("password", password.as_str()));
                rec.push(text_entry("role_color", role_color.as_str()));
            },
            ServerPacket::Message { message } => {
                rec.push(text_entry("packet_type", "Message"));
                rec.push(text_entry("message", message.as_str()));
            },
            ServerPacket::ApiRequest { request_type } => {
                rec.push(text_entry("packet_type", "ApiRequest"));
                rec.push(text_entry("request_type", request_type.as_str()));
            },
        }
        assert(entries(rec@) =~= Self::record_of(self@));
        proof {
            lemma_record_view(rec);
        }
        Field::Record(rec)
    }

    /// Reads a packet from a wire value, choosing the variant by the tag.
    pub fn decode(value: &Field) -> (r: Result<ServerPacket, CommunicationError>)
        ensures
            match Self::parse_value(value@) {
                Ok(m) => r is Ok && r->Ok_0@ == m,
                Err(e) => r is Err && r->Err_0 == e,
            },
    {
        let rec = match value {
            Field::Record(rec) => {
                proof {
                    lemma_record_view(*rec);
                }
                rec
            },
            _ => { return Err(CommunicationError::UnknownTag); },
        };
        let tag = match text_at(rec, 0, "packet_type") {
            Some(t) => t,
            None => { return Err(CommunicationError::UnknownTag); },
        };
        if str_eq(tag.as_str(), "Login") {
            if rec.len() != 3 {
                return Err(CommunicationError::InvalidPayload);
            }
            let username = match text_at(rec, 1, "username") {
                Some(t) => t,
                None => { return Err(CommunicationError::InvalidPayload); },
            };
            match text_at(rec, 2, "password") {
                Some(password) => Ok(ServerPacket::Login { username, password }),
                None => Err(CommunicationError::InvalidPayload),
            }
        } else if str_eq(tag.as_str(), "Register") {
            if rec.len() != 4 {
                return Err(CommunicationError::InvalidPayload);
            }
            let username = match text_at(rec, 1, "username") {
                Some(t) => t,
                None => { return Err(CommunicationError::InvalidPayload); },
            };
            let password = match text_at(rec, 2, "password") {
                Some(t) => t,
                None => { return Err(CommunicationError::InvalidPayload); },
            };
            match text_at(rec, 3, "role_color") {
                Some(role_color) => Ok(ServerPacket::Register { username, password, role_color }),
                None => Err(CommunicationError::InvalidPayload),
            }
        } else if str_eq(tag.as_str(), "Message") {
            if rec.len() != 2 {
                return Err(CommunicationError::InvalidPayload);
            }
            match text_at(rec, 1, "message") {
                Some(message) => Ok(ServerPacket::Message { message }),
                None => Err(CommunicationError::InvalidPayload),
            }
        } else if str_eq(tag.as_str(), "ApiRequest") {
            if rec.len() != 2 {
                return Err(CommunicationError::InvalidPayload);
            }
            match text_at(rec, 1, "request_type") {
                Some(request_type) => Ok(ServerPacket::ApiRequest { request_type }),
                None => Err(CommunicationError::InvalidPayload),
            }
        } else {
            Err(CommunicationError::UnknownTag)
        }
    }
}

/// The four tags of the client's packets differ from one another.
pub proof fn lemma_server_tags_distinct()
    ensures
        "Login"@.len() == 5,
        "Register"@.len() == 8,
        "Message"@.len() == 7,
        "ApiRequest"@.len() == 10,
{
    reveal_strlit("Login");
    reveal_strlit("Register");
    reveal_strlit("Message");
    reveal_strlit("ApiRequest");
}

/// Decoding what was encoded gives the packet back: for every packet of the
/// client's direction, the record written from it reads as that packet.
pub proof fn lemma_server_packet_round_trip(m: ServerPacketModel)
    ensures
        ServerPacket::parse_value(WireValue::Record(ServerPacket::record_of(m))) == Ok::<
            ServerPacketModel,
            CommunicationError,
        >(m),
{
    lemma_server_tags_distinct();
}

/// A record reads as a packet of the client's direction only if it is the
/// record written from that packet: the decoder accepts what the encoder
/// writes and nothing else.
pub proof fn lemma_server_packet_parse_exact(rec: Seq<(Seq<char>, WireValue)>)
    requires
        ServerPacket::parse(rec) is Ok,
    ensures
        ServerPacket::record_of(ServerPacket::parse(rec)->Ok_0) == rec,
{
    lemma_server_tags_distinct();
    assert(ServerPacket::record_of(ServerPacket::parse(rec)->Ok_0) =~= rec);
}

/// A record is an `UnknownTag` exactly when its first field is no known
/// tag of the client's direction.
pub proof fn lemma_server_unknown_tag(rec: Seq<(Seq<char>, WireValue)>)
    ensures
        ServerPacket::parse(rec) == Err::<ServerPacketModel, CommunicationError>(
            CommunicationError::UnknownTag,
        ) <==> !(text_field(rec, 0, "packet_type"@) matches Some(tag) && ServerPacket::known_tag(
            tag,
        )),
{
}

} // verus!
