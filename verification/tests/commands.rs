use stblib::scapi::addons::badge_handler;
use stblib::scapi::command::{Command, CommandResponse};
use stblib::scapi::context::{Channel, Context};
use stblib::scapi::registry::{conclude, CommandError, CommandRegistry};
use stblib::stbchat::packet::ServerPacket;

type Handler = fn(Context<Channel>) -> CommandResponse;

fn help(_context: Context<Channel>) -> CommandResponse {
    Ok(Some("help text".to_string()))
}

fn greet(context: Context<Channel>) -> CommandResponse {
    Ok(Some(format!("Hello {} from {}", context.args.join(","), context.executor)))
}

fn quiet(_context: Context<Channel>) -> CommandResponse {
    Ok(None)
}

fn broken(_context: Context<Channel>) -> CommandResponse {
    Err("boom".to_string())
}

fn command(name: &str, aliases: Vec<&'static str>, handler: Handler) -> Command<Handler> {
    Command { name: name.to_string(), aliases, description: String::new(), handler }
}

fn registry() -> CommandRegistry<Handler> {
    let mut registry = CommandRegistry::new();
    registry.register(command("help", vec!["h", "?"], help)).unwrap();
    registry.register(command("greet", vec!["hi"], greet)).unwrap();
    registry.register(command("quiet", vec![], quiet)).unwrap();
    registry.register(command("broken", vec!["b"], broken)).unwrap();
    registry
}

#[test]
fn alias_resolution() {
    let mut registry: CommandRegistry<Handler> = CommandRegistry::new();
    registry.register(command("help", vec!["h", "?"], help)).unwrap();
    assert_eq!(registry.resolve("help"), Some(0));
    assert_eq!(registry.resolve("h"), Some(0));
    assert_eq!(registry.resolve("?"), Some(0));
    for name in ["help", "h", "?"] {
        assert_eq!(
            registry.dispatch(name, "alice".to_string(), vec![], Channel::new()),
            Ok(Some("help text".to_string()))
        );
    }
    assert_eq!(
        registry.dispatch("unknown", "alice".to_string(), vec![], Channel::new()),
        Err(CommandError::CommandNotFound("unknown".to_string()))
    );
}

#[test]
fn lookup_prefers_names_over_aliases() {
    let registry = registry();
    assert_eq!(registry.len(), 4);
    assert_eq!(registry.resolve("greet"), Some(1));
    assert_eq!(registry.resolve("hi"), Some(1));
    assert_eq!(registry.resolve("b"), Some(3));
    assert_eq!(registry.resolve("HELP"), None);
    assert_eq!(registry.resolve(""), None);
    assert_eq!(registry.get(2).name, "quiet");
}

#[test]
fn register_refuses_collisions() {
    let mut registry = registry();
    assert_eq!(
        registry.register(command("help", vec![], quiet)),
        Err(CommandError::NameCollision("help".to_string()))
    );
    assert_eq!(
        registry.register(command("h", vec![], quiet)),
        Err(CommandError::NameCollision("h".to_string()))
    );
    assert_eq!(
        registry.register(command("fresh", vec!["new", "greet", "?"], quiet)),
        Err(CommandError::NameCollision("greet".to_string()))
    );
    assert_eq!(
        registry.register(command("other", vec!["x", "hi"], quiet)),
        Err(CommandError::NameCollision("hi".to_string()))
    );
    assert_eq!(registry.len(), 4);
    assert_eq!(registry.register(command("fresh", vec!["new"], quiet)), Ok(()));
    assert_eq!(registry.len(), 5);
    assert_eq!(registry.resolve("new"), Some(4));
}

#[test]
fn dispatch_builds_a_fresh_context() {
    let registry = registry();
    let reply = registry.dispatch(
        "hi",
        "alice".to_string(),
        vec!["Bob".to_string(), "Eve".to_string()],
        Channel::new(),
    );
    assert_eq!(reply, Ok(Some("Hello Bob,Eve from alice".to_string())));
}

#[test]
fn handler_results_pass_unchanged() {
    let registry = registry();
    assert_eq!(registry.dispatch("quiet", String::new(), vec![], Channel::new()), Ok(None));
    assert_eq!(
        registry.dispatch("b", String::new(), vec![], Channel::new()),
        Err(CommandError::HandlerError("boom".to_string()))
    );
    assert_eq!(
        registry.invoke("broken", String::new(), vec![], Channel::new()),
        Ok(Err("boom".to_string()))
    );
    assert_eq!(
        registry.invoke("nope", String::new(), vec![], Channel::new()),
        Err(CommandError::CommandNotFound("nope".to_string()))
    );
}

#[test]
fn conclude_maps_handler_errors() {
    assert_eq!(conclude(Ok(Some("x".to_string()))), Ok(Some("x".to_string())));
    assert_eq!(conclude(Ok(None)), Ok(None));
    assert_eq!(conclude(Err("bad".to_string())), Err(CommandError::HandlerError("bad".to_string())));
}

#[test]
fn command_names_and_aliases() {
    let c = command("help", vec!["h", "?"], help);
    assert!(c.is_named("help"));
    assert!(!c.is_named("h"));
    assert!(c.is_alias("h"));
    assert!(c.is_alias("?"));
    assert!(!c.is_alias("help"));
}

#[test]
fn channel_send_queues_one_message_each() {
    let mut channel = Channel::new();
    assert_eq!(channel.outbox.len(), 0);
    channel.send("one");
    channel.send("two");
    assert_eq!(
        channel.outbox,
        vec![
            ServerPacket::Message { message: "one".to_string() },
            ServerPacket::Message { message: "two".to_string() },
        ]
    );
    let taken = channel.take_outbox();
    assert_eq!(taken.len(), 2);
    assert_eq!(taken[1], ServerPacket::Message { message: "two".to_string() });
    assert_eq!(channel.outbox.len(), 0);
}

#[test]
fn badge_handler_formats_badges() {
    assert_eq!(badge_handler(""), None);
    assert_eq!(badge_handler("👑"), Some(" [👑]".to_string()));
    assert_eq!(badge_handler("dev"), Some(" [dev]".to_string()));
}

#[test]
fn command_error_messages() {
    assert_eq!(
        CommandError::CommandNotFound("unknown".to_string()).message(),
        "Command not found: unknown"
    );
    assert_eq!(CommandError::HandlerError("boom".to_string()).message(), "boom");
    assert_eq!(
        CommandError::NameCollision("h".to_string()).message(),
        "Name is taken by another command: h"
    );
}
