use terraform_sage::cli::Command;
use terraform_sage::client::{Action, Event, SageClient, Session, Step};
use terraform_sage::error::SageError;
use terraform_sage::utils::EntryInfo;

fn file(name: &str, path: &str) -> EntryInfo {
    EntryInfo {
        name: name.to_string(),
        path: path.to_string(),
        is_dir: false,
        is_file: true,
    }
}

fn dir(name: &str, path: &str) -> EntryInfo {
    EntryInfo {
        name: name.to_string(),
        path: path.to_string(),
        is_dir: true,
        is_file: false,
    }
}

fn env_root() -> Vec<EntryInfo> {
    vec![
        dir("configs", "./env/configs"),
        file("main.tpl", "./env/main.tpl"),
    ]
}

fn env_configs() -> Vec<EntryInfo> {
    vec![
        dir("dev", "./env/configs/dev"),
        dir("staging", "./env/configs/staging"),
    ]
}

fn resolve(session: Session, step: &Step) -> (Session, Step) {
    match &step.action {
        Action::ScanDir { path } => assert_eq!(path, "./env"),
        other => panic!("expected the root scan, got {:?}", kind(other)),
    }
    let (session, step) = session.step(Event::Scanned {
        outcome: Ok(env_root()),
    });
    match &step.action {
        Action::ScanDir { path } => assert_eq!(path, "./env/configs"),
        other => panic!("expected the configs scan, got {:?}", kind(other)),
    }
    session.step(Event::Scanned {
        outcome: Ok(env_configs()),
    })
}

fn kind(action: &Action) -> &'static str {
    match action {
        Action::ScanDir { .. } => "ScanDir",
        Action::ReadFile { .. } => "ReadFile",
        Action::WriteFile { .. } => "WriteFile",
        Action::RunTool { .. } => "RunTool",
        Action::DeleteFile { .. } => "DeleteFile",
        Action::Finished { .. } => "Finished",
    }
}

#[test]
fn test_generate_renders_the_module_end_to_end() {
    let client = SageClient::new();
    let cmd = Command::Generate {
        config: "dev".to_string(),
        directory: "./env".to_string(),
        template: "main.tpl".to_string(),
        out: "main.tf".to_string(),
    };
    let (session, step) = client.run(cmd);
    let (session, step) = resolve(session, &step);
    match &step.action {
        Action::ReadFile { path } => assert_eq!(path, "./env/main.tpl"),
        other => panic!("expected the template read, got {:?}", kind(other)),
    }
    let (session, step) = session.step(Event::FileRead {
        outcome: Ok("Environment: {{CONFIG_NAME}}".to_string()),
    });
    match &step.action {
        Action::ReadFile { path } => assert_eq!(path, "./env/configs/context.toml"),
        other => panic!("expected the context read, got {:?}", kind(other)),
    }
    let (session, step) = session.step(Event::FileRead {
        outcome: Err("No such file or directory (os error 2)".to_string()),
    });
    match &step.action {
        Action::WriteFile { path, contents } => {
            assert_eq!(path, "./env/main.tf");
            assert_eq!(contents, "Environment: dev");
        }
        other => panic!("expected the module write, got {:?}", kind(other)),
    }
    let (_, step) = session.step(Event::Written { outcome: Ok(()) });
    match step.action {
        Action::Finished { result } => assert!(result.is_ok()),
        other => panic!("expected the command to finish, got {:?}", kind(&other)),
    }
}

#[test]
fn test_generate_with_context_table_end_to_end() {
    let client = SageClient::new();
    let cmd = Command::Generate {
        config: "dev".to_string(),
        directory: "./env".to_string(),
        template: "main.tpl".to_string(),
        out: "main.tf".to_string(),
    };
    let (session, step) = client.run(cmd);
    let (session, step) = resolve(session, &step);
    match &step.action {
        Action::ReadFile { path } => assert_eq!(path, "./env/main.tpl"),
        other => panic!("expected the template read, got {:?}", kind(other)),
    }
    let (session, step) = session.step(Event::FileRead {
        outcome: Ok("{{region}}/{{CONFIG_NAME}}".to_string()),
    });
    match &step.action {
        Action::ReadFile { path } => assert_eq!(path, "./env/configs/context.toml"),
        other => panic!("expected the context read, got {:?}", kind(other)),
    }
    let (_, step) = session.step(Event::FileRead {
        outcome: Ok("[dev]\nregion = \"us-east-1\"\n".to_string()),
    });
    match &step.action {
        Action::WriteFile { path, contents } => {
            assert_eq!(path, "./env/main.tf");
            assert_eq!(contents, "us-east-1/dev");
        }
        other => panic!("expected the module write, got {:?}", kind(other)),
    }
}

#[test]
fn test_unknown_configuration_fails_before_any_write() {
    let client = SageClient::new();
    let cmd = Command::Generate {
        config: "qa".to_string(),
        directory: "./env".to_string(),
        template: "main.tpl".to_string(),
        out: "main.tf".to_string(),
    };
    let (session, step) = client.run(cmd);
    let (_, step) = resolve(session, &step);
    match step.action {
        Action::Finished { result } => match result {
            Err(SageError::InvalidConfig { message }) => {
                assert!(message.contains("qa"));
                assert_eq!(message, "Configuration with qa name was not found.");
            }
            _ => panic!("expected an invalid-configuration error"),
        },
        other => panic!("expected the command to fail, got {:?}", kind(&other)),
    }
}

#[test]
fn test_missing_configs_directory_resolves_to_empty_set() {
    let client = SageClient::new();
    let cmd = Command::List {
        directory: "./env".to_string(),
    };
    let (session, step) = client.run(cmd);
    match &step.action {
        Action::ScanDir { path } => assert_eq!(path, "./env"),
        other => panic!("expected the root scan, got {:?}", kind(other)),
    }
    let (_, step) = session.step(Event::Scanned {
        outcome: Ok(vec![file("main.tpl", "./env/main.tpl")]),
    });
    match step.action {
        Action::Finished { result } => assert!(result.is_ok()),
        other => panic!("expected the listing to finish, got {:?}", kind(&other)),
    }
}

#[test]
fn test_unreadable_directory_fails_with_io_error() {
    let client = SageClient::new();
    let cmd = Command::List {
        directory: "./env".to_string(),
    };
    let (session, _) = client.run(cmd);
    let (_, step) = session.step(Event::Scanned {
        outcome: Err("No such file or directory (os error 2)".to_string()),
    });
    match step.action {
        Action::Finished { result } => match result {
            Err(SageError::Io { source, detail }) => {
                assert_eq!(source, "./env");
                assert_eq!(detail, "No such file or directory (os error 2)");
            }
            _ => panic!("expected an I/O error"),
        },
        other => panic!("expected the command to fail, got {:?}", kind(&other)),
    }
}

#[test]
fn test_apply_with_cleanup_deletes_the_used_module() {
    let client = SageClient::new();
    let cmd = Command::Apply {
        config: "dev".to_string(),
        directory: "./env".to_string(),
        target: Some("./env/main-dev.tf".to_string()),
        template: "main.tpl".to_string(),
        out: None,
        cleanup: true,
        extra: vec![],
    };
    let (session, step) = client.run(cmd);
    let (session, step) = resolve(session, &step);
    match &step.action {
        Action::ScanDir { path } => assert_eq!(path, "./env/configs/dev"),
        other => panic!("expected the variable-file scan, got {:?}", kind(other)),
    }
    let (session, step) = session.step(Event::Scanned { outcome: Ok(vec![]) });
    match &step.action {
        Action::RunTool {
            command,
            args,
            interactive,
        } => {
            assert_eq!(command, "apply");
            assert_eq!(args, &vec!["./env".to_string()]);
            assert_eq!(*interactive, true);
        }
        other => panic!("expected the tool to run, got {:?}", kind(other)),
    }
    let (session, step) = session.step(Event::ToolFinished { outcome: Ok(()) });
    match &step.action {
        Action::DeleteFile { path } => assert_eq!(path, "./env/main-dev.tf"),
        other => panic!("expected the module delete, got {:?}", kind(other)),
    }
    let (_, step) = session.step(Event::Deleted { outcome: Ok(()) });
    match step.action {
        Action::Finished { result } => assert!(result.is_ok()),
        other => panic!("expected the command to finish, got {:?}", kind(&other)),
    }
}

#[test]
fn test_apply_without_cleanup_leaves_the_module() {
    let client = SageClient::new();
    let cmd = Command::Apply {
        config: "dev".to_string(),
        directory: "./env".to_string(),
        target: Some("./env/main-dev.tf".to_string()),
        template: "main.tpl".to_string(),
        out: None,
        cleanup: false,
        extra: vec![],
    };
    let (session, step) = client.run(cmd);
    let (session, step) = resolve(session, &step);
    let (session, _) = session.step(Event::Scanned { outcome: Ok(vec![]) });
    let (_, step) = session.step(Event::ToolFinished { outcome: Ok(()) });
    match step.action {
        Action::Finished { result } => assert!(result.is_ok()),
        other => panic!(
            "expected the command to finish without deleting, got {:?}",
            kind(&other)
        ),
    }
}

#[test]
fn test_plan_passes_variable_files_without_duplicates() {
    let client = SageClient::new();
    let cmd = Command::Plan {
        config: "dev".to_string(),
        directory: "./env".to_string(),
        target: Some("./env/main-dev.tf".to_string()),
        template: "main.tpl".to_string(),
        out: None,
        cleanup: false,
        extra: vec![
            "plan".to_string(),
            "-var-file=./env/configs/dev/main.tf".to_string(),
        ],
    };
    let (session, step) = client.run(cmd);
    let (session, step) = resolve(session, &step);
    match &step.action {
        Action::ScanDir { path } => assert_eq!(path, "./env/configs/dev"),
        other => panic!("expected the variable-file scan, got {:?}", kind(other)),
    }
    let scan = vec![
        file("main.tf", "./env/configs/dev/main.tf"),
        file("vars.tfvars", "./env/configs/dev/vars.tfvars"),
        file("output.tf", "./env/configs/dev/output.tf"),
    ];
    let (_, step) = session.step(Event::Scanned { outcome: Ok(scan) });
    match &step.action {
        Action::RunTool {
            command,
            args,
            interactive,
        } => {
            assert_eq!(command, "plan");
            assert_eq!(
                args,
                &vec![
                    "-var-file=./env/configs/dev/main.tf".to_string(),
                    "-var-file=./env/configs/dev/vars.tfvars".to_string(),
                    "./env".to_string(),
                ]
            );
            assert_eq!(*interactive, false);
        }
        other => panic!("expected the tool to run, got {:?}", kind(other)),
    }
}

#[test]
fn test_init_strips_the_first_extra_token() {
    let client = SageClient::new();
    let cmd = Command::Init {
        config: "dev".to_string(),
        directory: "./env".to_string(),
        target: Some("./env/main-dev.tf".to_string()),
        template: "main.tpl".to_string(),
        out: None,
        cleanup: false,
        extra: vec!["init".to_string(), "-backend=false".to_string()],
    };
    let (session, step) = client.run(cmd);
    let (_, step) = resolve(session, &step);
    match &step.action {
        Action::RunTool {
            command,
            args,
            interactive,
        } => {
            assert_eq!(command, "init");
            assert_eq!(
                args,
                &vec!["-backend=false".to_string(), "./env".to_string()]
            );
            assert_eq!(*interactive, false);
        }
        other => panic!("expected the tool to run, got {:?}", kind(other)),
    }
}

#[test]
fn test_output_passes_extra_arguments_unchanged() {
    let client = SageClient::new();
    let cmd = Command::Output {
        config: "dev".to_string(),
        directory: "./env".to_string(),
        target: Some("./env/main-dev.tf".to_string()),
        template: "main.tpl".to_string(),
        out: None,
        cleanup: false,
        extra: vec!["-json".to_string()],
    };
    let (session, step) = client.run(cmd);
    let (_, step) = resolve(session, &step);
    match &step.action {
        Action::RunTool {
            command,
            args,
            interactive,
        } => {
            assert_eq!(command, "output");
            assert_eq!(args, &vec!["-json".to_string()]);
            assert_eq!(*interactive, false);
        }
        other => panic!("expected the tool to run, got {:?}", kind(other)),
    }
}

#[test]
fn test_spawn_failure_is_a_terraform_error() {
    let client = SageClient::new();
    let cmd = Command::Apply {
        config: "dev".to_string(),
        directory: "./env".to_string(),
        target: Some("./env/main-dev.tf".to_string()),
        template: "main.tpl".to_string(),
        out: None,
        cleanup: true,
        extra: vec![],
    };
    let (session, step) = client.run(cmd);
    let (session, step) = resolve(session, &step);
    let _ = step;
    let (session, _) = session.step(Event::Scanned { outcome: Ok(vec![]) });
    let (_, step) = session.step(Event::ToolFinished {
        outcome: Err("No such file or directory (os error 2)".to_string()),
    });
    match step.action {
        Action::Finished { result } => match result {
            Err(SageError::TerraformError { command, detail }) => {
                assert_eq!(command, "apply");
                assert_eq!(detail, "No such file or directory (os error 2)");
            }
            _ => panic!("expected an external-tool error"),
        },
        other => panic!("expected the command to fail, got {:?}", kind(&other)),
    }
}
