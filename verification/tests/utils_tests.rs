use terraform_sage::error::SageError;
use terraform_sage::utils::{get_configs, get_extension_from_filename, is_correct_config, EntryInfo};

fn entry(name: &str, path: &str, is_dir: bool, is_file: bool) -> EntryInfo {
    EntryInfo {
        name: name.to_string(),
        path: path.to_string(),
        is_dir,
        is_file,
    }
}

fn approach_two_root() -> Vec<EntryInfo> {
    vec![
        entry(
            "configs",
            "./examples/approach_two/configs",
            true,
            false,
        ),
        entry("main.tpl", "./examples/approach_two/main.tpl", false, true),
        entry("README.md", "./examples/approach_two/README.md", false, true),
    ]
}

fn approach_two_configs() -> Vec<EntryInfo> {
    vec![
        entry("dev", "./examples/approach_two/configs/dev", true, false),
        entry(
            "staging",
            "./examples/approach_two/configs/staging",
            true,
            false,
        ),
        entry(
            "production",
            "./examples/approach_two/configs/production",
            true,
            false,
        ),
        entry(
            "context.toml",
            "./examples/approach_two/configs/context.toml",
            false,
            true,
        ),
    ]
}

#[test]
fn test_get_configs_returns_all_available_configurations() {
    let path = String::from("./examples/approach_two");
    let result = get_configs(&path, &Ok(approach_two_root()), &Ok(approach_two_configs()));

    assert_eq!(result.is_ok(), true);
    let configs = result.unwrap();
    assert_eq!(configs.len(), 3);
    assert_eq!(configs.contains_key("dev"), true);
    assert_eq!(configs.contains_key("staging"), true);
    assert_eq!(configs.contains_key("production"), true);
}

#[test]
fn test_get_configs_returns_empty_hashmap() {
    let path = String::from(".");
    let root = vec![
        entry("src", "./src", true, false),
        entry("Cargo.toml", "./Cargo.toml", false, true),
    ];
    let result = get_configs(&path, &Ok(root), &Ok(vec![]));

    assert_eq!(result.is_ok(), true);
    let configs = result.unwrap();
    assert_eq!(configs.len(), 0);
}

#[test]
fn test_get_configs_returns_error_for_invalid_path() {
    let path = String::from("./NOT_EXISTING_DIR/");
    let scan_failure = String::from("No such file or directory (os error 2)");
    let result = get_configs(&path, &Err(scan_failure.clone()), &Err(scan_failure));

    assert_eq!(result.is_err(), true);
}

#[test]
fn test_get_configs_error_names_the_scanned_directory() {
    let path = String::from("./NOT_EXISTING_DIR/");
    let detail = String::from("No such file or directory (os error 2)");
    let result = get_configs(&path, &Err(detail.clone()), &Ok(vec![]));

    match result {
        Err(SageError::Io { source, detail: d }) => {
            assert_eq!(source, "./NOT_EXISTING_DIR/");
            assert_eq!(d, "No such file or directory (os error 2)");
        }
        _ => panic!("expected an I/O error"),
    }
}

#[test]
fn test_get_configs_ignores_unreadable_configs_directory() {
    let path = String::from("./examples/approach_two");
    let result = get_configs(
        &path,
        &Ok(approach_two_root()),
        &Err(String::from("Permission denied (os error 13)")),
    );

    assert_eq!(result.is_ok(), true);
    assert_eq!(result.unwrap().len(), 0);
}

#[test]
fn test_get_configs_keeps_only_directories() {
    let path = String::from("./examples/approach_two");
    let result = get_configs(&path, &Ok(approach_two_root()), &Ok(approach_two_configs()));

    let configs = result.unwrap();
    assert_eq!(configs.contains_key("context.toml"), false);
    assert_eq!(
        configs.get("dev").unwrap(),
        "./examples/approach_two/configs/dev"
    );
}

#[test]
fn test_is_correct_config_return_empty_result() {
    let path = String::from("./examples/approach_two");
    let configs =
        get_configs(&path, &Ok(approach_two_root()), &Ok(approach_two_configs())).unwrap();
    let result = is_correct_config(&"dev".to_owned(), configs);

    assert_eq!(result.is_ok(), true);
}

#[test]
fn test_is_correct_config_returns_error() {
    let path = String::from("./examples/approach_two");
    let configs =
        get_configs(&path, &Ok(approach_two_root()), &Ok(approach_two_configs())).unwrap();
    let result = is_correct_config(&"INVALID".to_owned(), configs);

    assert_eq!(result.is_err(), true);
}

#[test]
fn test_is_correct_config_error_message_contains_the_name() {
    let path = String::from(".");
    let configs = get_configs(&path, &Ok(vec![]), &Ok(vec![])).unwrap();
    let result = is_correct_config(&"qa".to_owned(), configs);

    match result {
        Err(SageError::InvalidConfig { message }) => {
            assert_eq!(message, "Configuration with qa name was not found.");
        }
        _ => panic!("expected an invalid-configuration error"),
    }
}

#[test]
fn test_get_extension_from_filename() {
    assert_eq!(get_extension_from_filename("dir/file.tf"), "tf");
    assert_eq!(get_extension_from_filename("vars.tfvars"), "tfvars");
    assert_eq!(get_extension_from_filename("a.b/c"), "");
    assert_eq!(get_extension_from_filename(".gitignore"), "");
    assert_eq!(get_extension_from_filename("noext"), "");
    assert_eq!(get_extension_from_filename("archive.tar.gz"), "gz");
}

#[test]
fn test_error_describe_formats() {
    let e = SageError::Io {
        source: "main.tf".to_string(),
        detail: "denied".to_string(),
    };
    assert_eq!(e.describe(), "I/O error with main.tf: denied");
    let e = SageError::InvalidConfig {
        message: "Configuration with qa name was not found.".to_string(),
    };
    assert_eq!(
        e.describe(),
        "Invalid configuration: Configuration with qa name was not found."
    );
    let e = SageError::TemplateRender {
        filename: "main.tf".to_string(),
        detail: "bad".to_string(),
    };
    assert_eq!(
        e.describe(),
        "Template rendering error for main.tf file: bad"
    );
    let e = SageError::TerraformError {
        command: "plan".to_string(),
        detail: "spawn failed".to_string(),
    };
    assert_eq!(e.describe(), "Terraform error for `plan` command: spawn failed");
}
