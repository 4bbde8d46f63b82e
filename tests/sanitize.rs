use mailbox_bridge::credentials::{credential_file_name, is_credential_file, Credential};
use mailbox_bridge::sanitize::{
    escape_bash_literal, escape_powershell_literal, mask_phone_number, sanitize_component,
    sanitize_extension, sanitize_filename, sanitize_relative_path, sanitize_segment,
    sanitize_workflow_id,
};
use mailbox_bridge::text::normalize_phone;

#[test]
fn segment_replaces_unsafe_characters() {
    assert_eq!(sanitize_segment("a b/c", false), "a_b_c");
    assert_eq!(sanitize_segment("  hello world  ", true), "hello world");
    assert_eq!(sanitize_segment("ünï-code_ok", false), "_n_-code_ok");
    assert_eq!(sanitize_segment("", true), "");
    assert_eq!(sanitize_segment("   ", true), "");
}

#[test]
fn component_falls_back_when_empty() {
    assert_eq!(sanitize_component("   ", true, "fallback"), "fallback");
    assert_eq!(sanitize_component("///", true, "fallback"), "___");
    assert_eq!(sanitize_component("noder updates", false, "x"), "noder_updates");
}

#[test]
fn workflow_id_keeps_spaces() {
    assert_eq!(sanitize_workflow_id("My Flow!"), "My Flow_");
    assert_eq!(sanitize_workflow_id(""), "workflow");
    assert_eq!(sanitize_workflow_id("New Workflow 1700000000"), "New Workflow 1700000000");
}

#[test]
fn extension_keeps_letters_and_digits() {
    assert_eq!(sanitize_extension("p.n-g"), "png");
    assert_eq!(sanitize_extension("MP4"), "MP4");
    assert_eq!(sanitize_extension("?!"), "");
}

#[test]
fn filename_sanitizes_stem_and_extension() {
    assert_eq!(sanitize_filename("my file?.tar.gz"), "my file__tar.gz");
    assert_eq!(sanitize_filename(".bashrc"), "_bashrc");
    assert_eq!(sanitize_filename("photo.j?pg"), "photo.jpg");
    assert_eq!(sanitize_filename(""), "file");
    assert_eq!(sanitize_filename("dir/inner.png"), "inner.png");
    assert_eq!(sanitize_filename("noext"), "noext");
}

#[test]
fn relative_path_drops_dot_segments() {
    assert_eq!(
        sanitize_relative_path(" a /../b\\ c?/./"),
        vec!["a".to_string(), "b".to_string(), "c_".to_string()]
    );
    assert!(sanitize_relative_path("").is_empty());
    assert!(sanitize_relative_path("/./..//").is_empty());
    assert_eq!(sanitize_relative_path("Downloads/My Pics"), vec!["Downloads".to_string(), "My Pics".to_string()]);
    assert_eq!(sanitize_relative_path("\tx\t/y"), vec!["x".to_string(), "y".to_string()]);
}

#[test]
fn phone_masks_all_but_last_four_digits() {
    assert_eq!(mask_phone_number("+1 (555) 123-4567"), "***4567");
    assert_eq!(mask_phone_number("1234"), "***");
    assert_eq!(mask_phone_number("abc"), "***");
    assert_eq!(mask_phone_number("12345"), "***2345");
}

#[test]
fn phone_normalization_keeps_digits() {
    assert_eq!(normalize_phone("+1 (555) 123-4567"), "15551234567");
    assert_eq!(normalize_phone("no digits"), "");
}

#[test]
fn literals_escape_single_quotes() {
    assert_eq!(escape_powershell_literal("it's"), "it''s");
    assert_eq!(escape_bash_literal("it's"), "it'\\''s");
    assert_eq!(escape_powershell_literal("plain"), "plain");
    assert_eq!(escape_bash_literal("''"), "'\\'''\\''");
}

#[test]
fn credential_file_round_trip() {
    let c = Credential {
        id: "openai".to_string(),
        name: "OpenAI key".to_string(),
        value: "SECRET-REDACTED".to_string(),
        credential_type: "api_key".to_string(),
    };
    assert_eq!(c.file_name(), "openai.json");
    assert_eq!(credential_file_name("x"), "x.json");
    let doc = c.to_document().expect("serializes");
    let back = Credential::parse(&doc).expect("parses back");
    assert_eq!(back.id, "openai");
    assert_eq!(back.name, "OpenAI key");
    assert_eq!(back.value, "SECRET-REDACTED");
    assert_eq!(back.credential_type, "api_key");
    assert!(Credential::parse("{\"id\":\"x\"}").is_none());
}

#[test]
fn credential_files_are_json_files() {
    assert!(is_credential_file("openai.json"));
    assert!(!is_credential_file("openai.json.bak"));
    assert!(!is_credential_file("json"));
    assert!(!is_credential_file(".json"));
}
