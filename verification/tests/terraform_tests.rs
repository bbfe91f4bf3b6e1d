use terraform_sage::terraform::TerraformClient;
use terraform_sage::utils::EntryInfo;

fn file(name: &str, path: &str) -> EntryInfo {
    EntryInfo {
        name: name.to_string(),
        path: path.to_string(),
        is_dir: false,
        is_file: true,
    }
}

fn dir(name: &str, path: &str) -> EntryInfo {
    EntryInfo {
        name: name.to_string(),
        path: path.to_string(),
        is_dir: true,
        is_file: false,
    }
}

fn strings(items: &[&str]) -> Vec<String> {
    items.iter().map(|s| s.to_string()).collect()
}

#[test]
fn test_get_init_args_strips_the_subcommand_token() {
    let client = TerraformClient::new();
    let args = client.get_init_args(
        &"./env".to_string(),
        &strings(&["init", "-backend=false"]),
    );

    assert_eq!(args, strings(&["-backend=false", "./env"]));
}

#[test]
fn test_get_init_args_without_passthrough() {
    let client = TerraformClient::new();
    let args = client.get_init_args(&"./env".to_string(), &strings(&["init"]));

    assert_eq!(args, strings(&["./env"]));

    let args = client.get_init_args(&"./env".to_string(), &strings(&[]));
    assert_eq!(args, strings(&["./env"]));
}

#[test]
fn test_get_command_args_appends_variable_modules_and_directory() {
    let client = TerraformClient::new();
    let scan = Ok(vec![
        file("main.tf", "./env/configs/dev/main.tf"),
        file("vars.tfvars", "./env/configs/dev/vars.tfvars"),
        file("notes.txt", "./env/configs/dev/notes.txt"),
        file("output.tf", "./env/configs/dev/output.tf"),
        dir("modules", "./env/configs/dev/modules"),
    ]);
    let args = client.get_command_args(&scan, &"./env".to_string(), &strings(&["plan"]));

    assert_eq!(
        args,
        strings(&[
            "-var-file=./env/configs/dev/main.tf",
            "-var-file=./env/configs/dev/vars.tfvars",
            "./env",
        ])
    );
}

#[test]
fn test_get_command_args_never_duplicates_var_file_arguments() {
    let client = TerraformClient::new();
    let scan = Ok(vec![
        file("main.tf", "./env/configs/dev/main.tf"),
        file("vars.tfvars", "./env/configs/dev/vars.tfvars"),
    ]);
    let extra = strings(&["plan", "-var-file=./env/configs/dev/main.tf"]);
    let args = client.get_command_args(&scan, &"./env".to_string(), &extra);

    assert_eq!(
        args,
        strings(&[
            "-var-file=./env/configs/dev/main.tf",
            "-var-file=./env/configs/dev/vars.tfvars",
            "./env",
        ])
    );
    let occurrences = args
        .iter()
        .filter(|a| a.as_str() == "-var-file=./env/configs/dev/main.tf")
        .count();
    assert_eq!(occurrences, 1);
}

#[test]
fn test_get_command_args_with_failed_scan_keeps_passthrough() {
    let client = TerraformClient::new();
    let scan = Err("Permission denied (os error 13)".to_string());
    let args = client.get_command_args(&scan, &"./env".to_string(), &strings(&["plan", "-input=false"]));

    assert_eq!(args, strings(&["-input=false", "./env"]));
}
