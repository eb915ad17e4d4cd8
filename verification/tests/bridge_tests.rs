use app_shell::bridge::{
    command_name_str, dispatch, parse_command, CommandName, CommandReply, CommandRequest,
};
use app_shell::persist::MkdirFailurePolicy;

#[test]
fn registry_names_parse_back() {
    assert_eq!(parse_command("greet"), Some(CommandName::Greet));
    assert_eq!(parse_command("save_file"), Some(CommandName::SaveFile));
}

#[test]
fn unknown_command_names_parse_to_none() {
    assert_eq!(parse_command(""), None);
    assert_eq!(parse_command("save-file"), None);
    assert_eq!(parse_command("Greet"), None);
}

#[test]
fn command_names_round_trip() {
    for c in [CommandName::Greet, CommandName::SaveFile] {
        let s = command_name_str(c);
        assert_eq!(parse_command(&s), Some(c));
    }
}

#[test]
fn dispatch_greet_returns_the_greeting() {
    let req = CommandRequest::Greet { name: "World".to_string() };
    match dispatch(&req, Some("/home/u")) {
        CommandReply::Greeting(g) => {
            assert_eq!(g, "Hello, World! You've been greeted from Rust!")
        }
        _ => panic!("greet must yield a greeting"),
    }
}

#[test]
fn dispatch_save_plans_under_documents() {
    let req = CommandRequest::SaveFile {
        path: "f.txt".to_string(),
        contents: "payload".to_string(),
    };
    match dispatch(&req, Some("/home/u")) {
        CommandReply::Save(plan) => {
            assert_eq!(plan.target, "/home/u/Documents/f.txt");
            assert_eq!(plan.ensure_dir.as_deref(), Some("/home/u/Documents"));
            assert_eq!(plan.on_mkdir_failure, MkdirFailurePolicy::Ignore);
        }
        _ => panic!("save must yield a plan"),
    }
}

#[test]
fn dispatch_save_without_home_uses_literal_path() {
    let req = CommandRequest::SaveFile {
        path: "out/f.txt".to_string(),
        contents: "payload".to_string(),
    };
    match dispatch(&req, None) {
        CommandReply::Save(plan) => {
            assert_eq!(plan.target, "out/f.txt");
            assert!(plan.ensure_dir.is_none());
        }
        _ => panic!("save must yield a plan"),
    }
}
