use workshop_dl::cli::{choose_mode, first_path, idle_exit_code, Mode, USAGE_EXIT_CODE};

#[test]
fn neither_download_nor_batch_is_usage() {
    let mode = choose_mode(&None, &None);
    assert_eq!(mode, Mode::Usage);
    assert_ne!(idle_exit_code(mode), 0);
    assert_eq!(idle_exit_code(mode), USAGE_EXIT_CODE);
}

#[test]
fn modes_from_flags() {
    assert_eq!(choose_mode(&Some("123".to_string()), &None), Mode::Download);
    assert_eq!(choose_mode(&None, &Some("list.txt".to_string())), Mode::Batch);
    assert_eq!(
        choose_mode(&Some("123".to_string()), &Some("list.txt".to_string())),
        Mode::Download
    );
    assert_eq!(idle_exit_code(Mode::Download), 0);
}

#[test]
fn tool_path_is_first_line() {
    assert_eq!(first_path(b"/usr/games/steamcmd\n"), Some(b"/usr/games/steamcmd".to_vec()));
    assert_eq!(
        first_path(b"C:\\steamcmd\\steamcmd.exe\r\nD:\\steamcmd.exe\r\n"),
        Some(b"C:\\steamcmd\\steamcmd.exe".to_vec())
    );
}

#[test]
fn tool_path_keeps_trailing_spaces() {
    assert_eq!(first_path(b"/a \n"), Some(b"/a ".to_vec()));
    assert_eq!(first_path(b"/opt/steamcmd"), Some(b"/opt/steamcmd".to_vec()));
    assert_eq!(first_path(b"/opt/steamcmd\r"), Some(b"/opt/steamcmd\r".to_vec()));
}

#[test]
fn no_tool_path() {
    assert_eq!(first_path(b""), None);
    assert_eq!(first_path(b"\n/usr/bin/steamcmd\n"), None);
    assert_eq!(first_path(b"\r\n/usr/bin/steamcmd\n"), None);
}
