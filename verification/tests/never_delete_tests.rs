use winsweep::never_delete::should_never_delete;

#[test]
fn test_never_delete_system32() {
    assert!(should_never_delete(r"C:\Windows\System32\kernel32.dll"));
}

#[test]
fn test_never_delete_program_files() {
    assert!(should_never_delete(r"C:\Program Files\SomeApp\app.exe"));
}

#[test]
fn test_allow_delete_temp_exe() {
    assert!(!should_never_delete(r"C:\Users\user\AppData\Local\Temp\installer.exe"));
}

#[test]
fn test_allow_delete_node_modules() {
    assert!(!should_never_delete(r"C:\project\node_modules\some-package\bin\cli.exe"));
}
