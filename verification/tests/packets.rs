use stblib::stbchat::error::CommunicationError;
use stblib::stbchat::object::{StbchatApiResponse, User, UserMeta};
use stblib::stbchat::packet::{ClientPacket, ServerPacket};
use stblib::stbchat::wire::Field;

fn text(value: &Field) -> &str {
    match value {
        Field::Text(t) => t.as_str(),
        _ => panic!("not a text field"),
    }
}

fn record(value: &Field) -> &Vec<(String, Field)> {
    match value {
        Field::Record(r) => r,
        _ => panic!("not a record"),
    }
}

fn alice() -> User {
    User {
        username: "alice".to_string(),
        nickname: "Alice".to_string(),
        badge: "🍓".to_string(),
        role_color: "red".to_string(),
        avatar_url: "https://example.org/a.png".to_string(),
    }
}

fn entry(name: &str, value: &str) -> (String, Field) {
    (name.to_string(), Field::Text(value.to_string()))
}

#[test]
fn system_message_layout() {
    let wire = ClientPacket::SystemMessage { message: "hello".to_string() }.encode();
    let fields = record(&wire);
    assert_eq!(fields.len(), 2);
    assert_eq!(fields[0].0, "packet_type");
    assert_eq!(text(&fields[0].1), "system_message");
    assert_eq!(fields[1].0, "message");
    assert_eq!(text(&fields[1].1), "hello");
}

#[test]
fn server_to_client_tags_are_exact() {
    let packets = vec![
        (ClientPacket::SystemMessage { message: String::new() }, "system_message"),
        (ClientPacket::UserMessage { author: alice(), message: String::new() }, "user_message"),
        (
            ClientPacket::Notification {
                title: String::new(),
                username: String::new(),
                avatar_url: String::new(),
                content: String::new(),
                bell: false,
            },
            "notification_backend",
        ),
        (ClientPacket::Event { event_type: String::new() }, "stbchat_event"),
        (
            ClientPacket::Backend { user_meta: UserMeta { username: String::new() } },
            "stbchat_backend",
        ),
        (
            ClientPacket::ApiResponse {
                response_type: String::new(),
                response: StbchatApiResponse::UserLeft { username: String::new() },
            },
            "stbchat_api",
        ),
    ];
    for (packet, tag) in packets {
        let wire = packet.encode();
        let fields = record(&wire);
        assert_eq!(fields[0].0, "packet_type");
        assert_eq!(text(&fields[0].1), tag);
    }
}

#[test]
fn client_to_server_tags_are_exact() {
    let packets = vec![
        (ServerPacket::Login { username: String::new(), password: String::new() }, "Login"),
        (
            ServerPacket::Register {
                username: String::new(),
                password: String::new(),
                role_color: String::new(),
            },
            "Register",
        ),
        (ServerPacket::Message { message: String::new() }, "Message"),
        (ServerPacket::ApiRequest { request_type: String::new() }, "ApiRequest"),
    ];
    for (packet, tag) in packets {
        let wire = packet.encode();
        let fields = record(&wire);
        assert_eq!(fields[0].0, "packet_type");
        assert_eq!(text(&fields[0].1), tag);
    }
}

#[test]
fn api_response_envelope_uses_its_own_tag_field() {
    let wire = ClientPacket::ApiResponse {
        response_type: "user".to_string(),
        response: StbchatApiResponse::UserData { data: alice() },
    }
    .encode();
    let fields = record(&wire);
    assert_eq!(fields.len(), 3);
    assert_eq!(fields[1].0, "response_type");
    assert_eq!(fields[2].0, "response");
    let envelope = record(&fields[2].1);
    assert_eq!(envelope[0].0, "api_response");
    assert_eq!(text(&envelope[0].1), "user_data");
    assert_eq!(envelope[1].0, "data");
    let user = record(&envelope[1].1);
    let names: Vec<&str> = user.iter().map(|f| f.0.as_str()).collect();
    assert_eq!(names, vec!["username", "nickname", "badge", "role_color", "avatar_url"]);
    assert_eq!(text(&user[2].1), "🍓");
}

#[test]
fn notification_carries_its_flag() {
    let wire = ClientPacket::Notification {
        title: "t".to_string(),
        username: "u".to_string(),
        avatar_url: "a".to_string(),
        content: "c".to_string(),
        bell: true,
    }
    .encode();
    let fields = record(&wire);
    assert_eq!(fields.len(), 6);
    assert_eq!(fields[5].0, "bell");
    assert!(matches!(fields[5].1, Field::Flag(true)));
}

#[test]
fn client_packets_round_trip() {
    let packets = vec![
        ClientPacket::SystemMessage { message: "Server restarts".to_string() },
        ClientPacket::UserMessage { author: alice(), message: "/greet Bob".to_string() },
        ClientPacket::Notification {
            title: "New message".to_string(),
            username: "bob".to_string(),
            avatar_url: "".to_string(),
            content: "hi".to_string(),
            bell: true,
        },
        ClientPacket::Event { event_type: "event.login".to_string() },
        ClientPacket::Backend { user_meta: UserMeta { username: "alice".to_string() } },
        ClientPacket::ApiResponse {
            response_type: "join".to_string(),
            response: StbchatApiResponse::UserJoined {
                username: "bob".to_string(),
                nickname: "Bob".to_string(),
                role_color: "blue".to_string(),
                badge: "".to_string(),
            },
        },
        ClientPacket::ApiResponse {
            response_type: "left".to_string(),
            response: StbchatApiResponse::UserLeft { username: "bob".to_string() },
        },
        ClientPacket::ApiResponse {
            response_type: "data".to_string(),
            response: StbchatApiResponse::UserData { data: alice() },
        },
    ];
    for packet in packets {
        assert_eq!(ClientPacket::decode(&packet.encode()), Ok(packet));
    }
}

#[test]
fn server_packets_round_trip() {
    let packets = vec![
        ServerPacket::Login { username: "bot".to_string(), password: "secret".to_string() },
        ServerPacket::Register {
            username: "bot".to_string(),
            password: "secret".to_string(),
            role_color: "green".to_string(),
        },
        ServerPacket::Message { message: "hello there".to_string() },
        ServerPacket::ApiRequest { request_type: "users".to_string() },
    ];
    for packet in packets {
        assert_eq!(ServerPacket::decode(&packet.encode()), Ok(packet));
    }
}

#[test]
fn unknown_tag_is_its_own_error() {
    let wire = Field::Record(vec![entry("packet_type", "teleport"), entry("message", "x")]);
    assert_eq!(ClientPacket::decode(&wire), Err(CommunicationError::UnknownTag));
    assert_eq!(ServerPacket::decode(&wire), Err(CommunicationError::UnknownTag));
}

#[test]
fn tags_of_the_other_direction_are_unknown() {
    let login = ServerPacket::Login { username: "a".to_string(), password: "b".to_string() };
    assert_eq!(ClientPacket::decode(&login.encode()), Err(CommunicationError::UnknownTag));
    let event = ClientPacket::Event { event_type: "x".to_string() };
    assert_eq!(ServerPacket::decode(&event.encode()), Err(CommunicationError::UnknownTag));
}

#[test]
fn value_without_tag_is_unknown() {
    assert_eq!(
        ClientPacket::decode(&Field::Text("system_message".to_string())),
        Err(CommunicationError::UnknownTag)
    );
    assert_eq!(ClientPacket::decode(&Field::Flag(true)), Err(CommunicationError::UnknownTag));
    assert_eq!(ClientPacket::decode(&Field::Record(vec![])), Err(CommunicationError::UnknownTag));
    let wrong_name = Field::Record(vec![entry("type", "system_message"), entry("message", "x")]);
    assert_eq!(ClientPacket::decode(&wrong_name), Err(CommunicationError::UnknownTag));
    let tag_is_flag = Field::Record(vec![("packet_type".to_string(), Field::Flag(true))]);
    assert_eq!(ServerPacket::decode(&tag_is_flag), Err(CommunicationError::UnknownTag));
}

#[test]
fn known_tag_with_wrong_layout_is_invalid() {
    let missing = Field::Record(vec![entry("packet_type", "system_message")]);
    assert_eq!(ClientPacket::decode(&missing), Err(CommunicationError::InvalidPayload));
    let extra = Field::Record(vec![
        entry("packet_type", "system_message"),
        entry("message", "x"),
        entry("more", "y"),
    ]);
    assert_eq!(ClientPacket::decode(&extra), Err(CommunicationError::InvalidPayload));
    let misnamed = Field::Record(vec![entry("packet_type", "Message"), entry("text", "x")]);
    assert_eq!(ServerPacket::decode(&misnamed), Err(CommunicationError::InvalidPayload));
    let wrong_kind = Field::Record(vec![
        entry("packet_type", "Message"),
        ("message".to_string(), Field::Flag(false)),
    ]);
    assert_eq!(ServerPacket::decode(&wrong_kind), Err(CommunicationError::InvalidPayload));
    let swapped = Field::Record(vec![
        entry("packet_type", "Login"),
        entry("password", "p"),
        entry("username", "u"),
    ]);
    assert_eq!(ServerPacket::decode(&swapped), Err(CommunicationError::InvalidPayload));
}

#[test]
fn unknown_envelope_tag_is_unknown() {
    let wire = Field::Record(vec![
        entry("packet_type", "stbchat_api"),
        entry("response_type", "x"),
        ("response".to_string(), Field::Record(vec![entry("api_response", "user_banned")])),
    ]);
    assert_eq!(ClientPacket::decode(&wire), Err(CommunicationError::UnknownTag));
}

#[test]
fn broken_user_is_invalid() {
    let wire = Field::Record(vec![
        entry("packet_type", "user_message"),
        ("author".to_string(), Field::Record(vec![entry("username", "a")])),
        entry("message", "x"),
    ]);
    assert_eq!(ClientPacket::decode(&wire), Err(CommunicationError::InvalidPayload));
}

#[test]
fn user_record_round_trip() {
    let user = alice();
    assert_eq!(User::from_record(&user.to_record()), Some(user));
    let meta = UserMeta { username: "m".to_string() };
    assert_eq!(UserMeta::from_record(&meta.to_record()), Some(meta));
    assert_eq!(User::from_record(&vec![]), None);
}
