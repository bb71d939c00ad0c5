use ack_shim::script::script_content;
use ack_shim::script::script_file_name;
use ack_shim::script::script_path;
use ack_shim::script::startup_dir_path;

#[test]
fn script_file_name_is_fixed() {
    assert_eq!(script_file_name(), "AcknowledgementAppStartup.cmd");
}

#[test]
fn startup_dir_is_under_appdata() {
    let dir = startup_dir_path("C:\\Users\\u\\AppData\\Roaming", "\\");
    assert_eq!(
        dir,
        "C:\\Users\\u\\AppData\\Roaming\\Microsoft\\Windows\\Start Menu\\Programs\\Startup"
    );
}

#[test]
fn script_path_joins_dir_and_name() {
    let p = script_path("D:\\startup", "\\");
    assert_eq!(p, "D:\\startup\\AcknowledgementAppStartup.cmd");
}

#[test]
fn script_content_matches_template_exactly() {
    let content = script_content("C:\\Program Files\\App\\app.exe");
    assert_eq!(
        content,
        "@echo off\r\nstart \"\" \"C:\\Program Files\\App\\app.exe\"\r\n"
    );
}

#[test]
fn script_content_quotes_path_with_spaces_verbatim() {
    let content = script_content("C:\\a b\\c.exe");
    assert!(content.starts_with("@echo off\r\nstart \"\" \""));
    assert!(content.ends_with("\"\r\n"));
    assert!(content.contains("\"C:\\a b\\c.exe\""));
}
