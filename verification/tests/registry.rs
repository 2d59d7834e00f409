use reemap::registry::{
    is_registered, run_command_line, run_on_login, RegistryAction, RegistryResult,
    REEMAP_RUN_VALUE_NAME, RUN_KEY_PATH,
};

#[test]
fn run_on_login_chooses_action() {
    assert_eq!(run_on_login(true), RegistryAction::Register);
    assert_eq!(run_on_login(false), RegistryAction::Unregister);
}

#[test]
fn command_line_adds_background_flag() {
    assert_eq!(
        run_command_line(Some("C:\\Apps\\reemap.exe")),
        Ok(String::from("C:\\Apps\\reemap.exe --background"))
    );
    assert_eq!(run_command_line(None), Err(RegistryResult::ExePathUTF8Error));
}

#[test]
fn registration_is_found_by_name() {
    let mut names = vec![String::from("OneDrive"), String::from("Discord")];
    assert!(!is_registered(&names));
    assert!(!is_registered(&Vec::new()));
    names.push(String::from(REEMAP_RUN_VALUE_NAME));
    assert!(is_registered(&names));
    assert_eq!(RUN_KEY_PATH, "SOFTWARE\\Microsoft\\Windows\\CurrentVersion\\Run");
}

#[test]
fn registry_error_messages() {
    assert_eq!(
        RegistryResult::ExePathIOError(String::from("not found")).message(),
        "error determining executable path: not found"
    );
    assert_eq!(
        RegistryResult::ExePathUTF8Error.message(),
        "executable path contained invalid UTF-8"
    );
    assert_eq!(
        RegistryResult::WinRegError(String::from("access denied")).message(),
        "error modifying registry key: access denied"
    );
}
