use terraform_sage::error::SageError;
use terraform_sage::template::{generate_file_name, generate_from_template, get_template_context};

#[test]
fn test_generate_file_name() {
    assert_eq!(generate_file_name(&"dev".to_string()), "main-dev.tf");
    assert_eq!(generate_file_name(&"staging".to_string()), "main-staging.tf");
}

#[test]
fn test_get_template_context_returns_matching_table() {
    let raw = "[dev]\nregion = \"us-east-1\"\n\n[staging]\nregion = \"eu-west-1\"\n";
    let context = get_template_context(raw, &"dev".to_string());

    assert_eq!(context.len(), 1);
    assert_eq!(context.get("region").unwrap(), "us-east-1");
}

#[test]
fn test_get_template_context_drops_non_string_values() {
    let raw = "[dev]\nregion = \"us-east-1\"\ncount = 3\nenabled = true\nnames = [\"a\"]\n";
    let context = get_template_context(raw, &"dev".to_string());

    assert_eq!(context.len(), 1);
    assert_eq!(context.contains_key("region"), true);
    assert_eq!(context.contains_key("count"), false);
    assert_eq!(context.contains_key("enabled"), false);
    assert_eq!(context.contains_key("names"), false);
}

#[test]
fn test_get_template_context_is_empty_for_missing_table() {
    let raw = "[staging]\nregion = \"eu-west-1\"\n";
    let context = get_template_context(raw, &"dev".to_string());

    assert_eq!(context.len(), 0);
}

#[test]
fn test_get_template_context_is_empty_for_malformed_document() {
    let context = get_template_context("not [valid toml", &"dev".to_string());
    assert_eq!(context.len(), 0);
}

#[test]
fn test_get_template_context_is_empty_for_absent_document() {
    let context = get_template_context("", &"dev".to_string());
    assert_eq!(context.len(), 0);
}

#[test]
fn test_generate_from_template_substitutes_variables() {
    let raw = "[dev]\nregion = \"us-east-1\"\n";
    let result = generate_from_template(
        "{{region}}/{{CONFIG_NAME}}",
        raw,
        &"dev".to_string(),
        &"main.tf".to_string(),
    );

    assert_eq!(result.unwrap(), "us-east-1/dev");
}

#[test]
fn test_generate_from_template_reserved_name_wins() {
    let raw = "[dev]\nCONFIG_NAME = \"other\"\n";
    let result = generate_from_template(
        "Environment: {{CONFIG_NAME}}",
        raw,
        &"dev".to_string(),
        &"main.tf".to_string(),
    );

    assert_eq!(result.unwrap(), "Environment: dev");
}

#[test]
fn test_generate_from_template_is_deterministic() {
    let raw = "[dev]\nregion = \"us-east-1\"\nowner = \"team\"\n";
    let template = "{{owner}}@{{region}}/{{CONFIG_NAME}}: {{missing}}!";
    let first = generate_from_template(template, raw, &"dev".to_string(), &"main.tf".to_string());
    let second = generate_from_template(template, raw, &"dev".to_string(), &"main.tf".to_string());

    assert_eq!(first.unwrap().as_bytes(), second.unwrap().as_bytes());
}

#[test]
fn test_generate_from_template_renders_missing_variables_empty() {
    let result = generate_from_template(
        "Environment: {{CONFIG_NAME}}{{missing}}",
        "",
        &"dev".to_string(),
        &"main.tf".to_string(),
    );

    assert_eq!(result.unwrap(), "Environment: dev");
}

#[test]
fn test_generate_from_template_reports_malformed_template() {
    let result = generate_from_template(
        "{{#each}}",
        "",
        &"dev".to_string(),
        &"out/main.tf".to_string(),
    );

    match result {
        Err(SageError::TemplateRender { filename, .. }) => {
            assert_eq!(filename, "out/main.tf");
        }
        _ => panic!("expected a template rendering error"),
    }
}
