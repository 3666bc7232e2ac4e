//! Configuration loading behavior: the merge of file-supplied fields with
//! the library defaults, over the same documents the loader accepts.

use baan::config::{config_dir, Config};
use baan::errors::NoteError;

/// Parse a configuration document the way the loader does, into the optional
/// parts that the library's merge fills with defaults.
fn parse_parts(doc: &str) -> Result<(Option<String>, Option<String>, Option<Vec<String>>), String> {
    let table: toml::Table = doc.parse().map_err(|e| format!("{e}"))?;
    let user = table.get("user");
    let editor = user
        .and_then(|u| u.get("editor"))
        .and_then(|v| v.as_str())
        .map(|s| s.to_string());
    let home_dir = user
        .and_then(|u| u.get("home_dir"))
        .and_then(|v| v.as_str())
        .map(|s| s.to_string());
    let headers = table
        .get("template")
        .and_then(|t| t.get("headers"))
        .and_then(|v| v.as_array())
        .map(|a| {
            a.iter()
                .filter_map(|v| v.as_str())
                .map(|s| s.to_string())
                .collect::<Vec<String>>()
        });
    Ok((editor, home_dir, headers))
}

fn load(doc: &str) -> Result<Config, String> {
    let (editor, home_dir, headers) = parse_parts(doc)?;
    Ok(Config::from_parts(editor, home_dir, headers))
}

#[test]
fn test_defaults_when_no_file() {
    // No configuration file: every field is the default.
    let config = Config::default();

    assert_eq!(config.user.editor, None);
    assert_eq!(config.user.home_dir, "~/.local/share/baan".to_string());
    assert_eq!(config.template.root_headers, vec!["TODO", "NOTES"]);
}

#[test]
fn test_full_config_deserializes() {
    let config = load(
        r#"
[user]
editor = "nvim"
home_dir = "/custom/path"

[template]
headers = ["Custom Header", "Another One"]
"#,
    )
    .unwrap();

    assert_eq!(config.user.editor, Some("nvim".to_string()));
    assert_eq!(config.user.home_dir, "/custom/path".to_string());
    assert_eq!(
        config.template.root_headers,
        vec!["Custom Header", "Another One"]
    );
}

#[test]
fn test_partial_config_editor_only() {
    let config = load("\n[user]\neditor = \"vim\"\n").unwrap();

    assert_eq!(config.user.editor, Some("vim".to_string()));
    assert_eq!(config.user.home_dir, "~/.local/share/baan".to_string()); // default
    assert_eq!(config.template.root_headers, vec!["TODO", "NOTES"]); // default
}

#[test]
fn test_partial_config_home_dir_only() {
    let config = load("\n[user]\nhome_dir = \"/notes/here\"\n").unwrap();

    assert_eq!(config.user.editor, None); // default
    assert_eq!(config.user.home_dir, "/notes/here".to_string());
    assert_eq!(config.template.root_headers, vec!["TODO", "NOTES"]); // default
}

#[test]
fn test_partial_config_template_only() {
    let config = load("\n[template]\nheaders = [\"Ideas\", \"Backlog\"]\n").unwrap();

    assert_eq!(config.user.editor, None); // default
    assert_eq!(config.user.home_dir, "~/.local/share/baan".to_string()); // default
    assert_eq!(config.template.root_headers, vec!["Ideas", "Backlog"]);
}

#[test]
fn test_empty_config_file() {
    // The file exists but is empty.
    let config = load("").unwrap();

    assert_eq!(config.user.editor, None);
    assert_eq!(config.user.home_dir, "~/.local/share/baan".to_string());
    assert_eq!(config.template.root_headers, vec!["TODO", "NOTES"]);
}

#[test]
fn test_user_section_missing() {
    let config = load("\n[template]\nheaders = [\"Only Template\"]\n").unwrap();

    // The user settings use their defaults when the section is missing.
    assert_eq!(config.user.editor, None);
    assert_eq!(config.user.home_dir, "~/.local/share/baan".to_string());
    assert_eq!(config.template.root_headers, vec!["Only Template"]);
}

#[test]
fn test_template_section_missing() {
    let config = load("\n[user]\neditor = \"emacs\"\n").unwrap();

    assert_eq!(config.user.editor, Some("emacs".to_string()));
    // The template uses its defaults when the section is missing.
    assert_eq!(config.template.root_headers, vec!["TODO", "NOTES"]);
}

#[test]
fn test_invalid_toml_returns_error() {
    let result = load("invalid toml [[[");

    assert!(result.is_err());
}

#[test]
fn test_config_dir_prefers_dedicated_root() {
    let r = config_dir(Some(b"/xdg".to_vec()), Some(b"/home/u".to_vec()));
    assert_eq!(r.unwrap(), b"/xdg/baan".to_vec());
}

#[test]
fn test_config_dir_falls_back_to_home() {
    let r = config_dir(None, Some(b"/home/u".to_vec()));
    assert_eq!(r.unwrap(), b"/home/u/.config/baan".to_vec());
}

#[test]
fn test_config_dir_fails_without_home() {
    let r = config_dir(None, None);
    assert_eq!(r.unwrap_err(), NoteError::HomeDirectoryMissing);
}
