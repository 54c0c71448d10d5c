use std::collections::HashMap;

use command_registry::command::AnyCommand;
use command_registry::command::Command;
use command_registry::command::ErrorKind;
use command_registry::command::NullCmd;
use command_registry::command::PingCmd;
use command_registry::registry::Command2;
use command_registry::registry::Commands;

fn raw_commands() -> Vec<(String, AnyCommand)> {
    vec![
        (
            "ping".to_string(),
            AnyCommand::Ping(PingCmd::new(Some("--a".to_string()))),
        ),
        ("other".to_string(), AnyCommand::Null(NullCmd::new())),
    ]
}

fn execute_command<T: Command>(cmd: &T) -> Result<(), ErrorKind> {
    cmd.execute()
}

#[test]
fn command2_new() {
    let command2 = Command2::new();

    assert!(command2
        .one_by("ping", Some("".to_string()))
        .execute()
        .is_err());
}

#[test]
fn commands_new() {
    let commands = Commands::new(raw_commands());

    assert!(commands.one_by("ping").execute().is_err());
}

#[test]
fn commands_default() {
    let commands = Commands::default();

    assert!(commands.one_by("ping").execute().is_err());
}

#[test]
fn commands_unknown_cmd() {
    let commands = Commands::new(raw_commands());

    assert!(commands.one_by("asdf").execute().is_err());
}

#[test]
fn command_new() {
    let ping_cmd = PingCmd::new(Some("--a".to_string()));

    assert!(execute_command(&ping_cmd).is_err());
}

#[test]
fn lerning_test_command_map() {
    let mut command_map: HashMap<String, Box<dyn Command>> = HashMap::new();

    let ping_command = Box::new(PingCmd::new(Some("--a".to_string())));
    let other_command = Box::new(NullCmd::new());

    command_map.insert("ping".to_string(), ping_command);
    command_map.insert("other".to_string(), other_command);

    assert!(command_map.get("ping").unwrap().execute().is_err());
    assert!(command_map.get("other").unwrap().execute().is_err());
}

#[test]
fn registered_and_missing_error_with_unknown_command() {
    let commands = Commands::new(vec![
        (
            "ping".to_string(),
            AnyCommand::Ping(PingCmd::new(Some("--a".to_string()))),
        ),
        ("null".to_string(), AnyCommand::Null(NullCmd::new())),
    ]);

    assert_eq!(
        commands.one_by("ping").execute(),
        Err(ErrorKind::UnknownCommand)
    );
    assert_eq!(
        commands.one_by("missing").execute(),
        Err(ErrorKind::UnknownCommand)
    );
}

#[test]
fn default_matches_explicit_construction() {
    let explicit = Commands::new(vec![
        (
            "ping".to_string(),
            AnyCommand::Ping(PingCmd::new(Some("--a".to_string()))),
        ),
        ("null".to_string(), AnyCommand::Null(NullCmd::new())),
    ]);
    let defaulted = Commands::default();

    for name in ["ping", "null", "missing"] {
        let a = explicit.one_by(name);
        let b = defaulted.one_by(name);
        match (a, b) {
            (AnyCommand::Ping(pa), AnyCommand::Ping(pb)) => {
                assert_eq!(pa.args(), pb.args());
            }
            (AnyCommand::Null(_), AnyCommand::Null(_)) => {}
            _ => panic!("variants differ for {}", name),
        }
        assert_eq!(a.execute(), b.execute());
    }
}

#[test]
fn default_registry_keys() {
    let commands = Commands::default();

    let ping = commands.one_by("ping");
    assert!(matches!(ping, AnyCommand::Ping(_)));
    match ping {
        AnyCommand::Ping(p) => assert_eq!(p.args(), &Some("--a".to_string())),
        AnyCommand::Null(_) => panic!("ping resolved to the null command"),
    }

    assert!(matches!(commands.one_by("null"), AnyCommand::Null(_)));
    assert!(matches!(commands.one_by("missing"), AnyCommand::Null(_)));
}

#[test]
fn unregistered_name_yields_null_command() {
    let commands = Commands::new(raw_commands());

    assert!(matches!(commands.one_by("asdf"), AnyCommand::Null(_)));
    assert!(matches!(commands.one_by("ping"), AnyCommand::Ping(_)));
}

#[test]
fn lazy_lookup_builds_fresh_command_with_args() {
    let command2 = Command2::new();

    let built = command2.one_by("ping", Some("--b".to_string()));
    match built {
        AnyCommand::Ping(p) => assert_eq!(p.args(), &Some("--b".to_string())),
        AnyCommand::Null(_) => panic!("registered name built the null command"),
    }

    let missing = command2.one_by("asdf", Some("--b".to_string()));
    assert!(matches!(missing, AnyCommand::Null(_)));
    assert!(missing.execute().is_err());
}

#[test]
fn ping_without_args_resolves() {
    let commands = Commands::new(vec![(
        "ping".to_string(),
        AnyCommand::Ping(PingCmd::new(None)),
    )]);

    match commands.one_by("ping") {
        AnyCommand::Ping(p) => assert_eq!(p.args(), &None),
        AnyCommand::Null(_) => panic!("ping resolved to the null command"),
    }
}

#[test]
fn error_message_is_static() {
    assert_eq!(ErrorKind::UnknownCommand.message(), "Unknown command");
}

#[test]
fn null_cmd_always_fails() {
    let cmd = NullCmd::new();

    assert_eq!(cmd.execute(), Err(ErrorKind::UnknownCommand));
}

#[test]
fn default_cmd_is_null() {
    let cmd = Commands::default_cmd();

    assert!(matches!(cmd, AnyCommand::Null(_)));
    assert_eq!(cmd.execute(), Err(ErrorKind::UnknownCommand));
}

#[test]
fn empty_registry_always_falls_back() {
    let commands = Commands::new(Vec::new());

    assert!(matches!(commands.one_by(""), AnyCommand::Null(_)));
    assert!(matches!(commands.one_by("ping"), AnyCommand::Null(_)));
    assert_eq!(
        commands.one_by("anything").execute(),
        Err(ErrorKind::UnknownCommand)
    );
}
