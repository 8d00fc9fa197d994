use workshop_dl::invoke::{
    command_args, command_line, decimal_string, download_args, tool_result, DownloadError, Login,
};
use workshop_dl::item::WorkshopItem;

#[test]
fn login_alice_download_123() {
    let login = Login::from_flag(Some("alice".to_string()));
    assert_eq!(login, Login::Named("alice".to_string()));
    let line = command_line(&login, 4000, 123);
    assert!(line.contains("+login alice"));
    assert!(line.contains("+workshop_download_item 4000 123"));
    assert_eq!(line, "+login alice +workshop_download_item 4000 123 +quit");
}

#[test]
fn no_login_is_anonymous() {
    let login = Login::from_flag(None);
    assert_eq!(login, Login::Anonymous);
    assert!(command_line(&login, 4000, 123).contains("+login anonymous"));
}

#[test]
fn empty_login_is_anonymous() {
    let login = Login::from_flag(Some(String::new()));
    assert_eq!(login, Login::Anonymous);
    assert_eq!(login.user_name(), "anonymous");
}

#[test]
fn command_args_are_separate() {
    let args = command_args(&Login::Named("bob".to_string()), 440, 987654321);
    assert_eq!(
        args,
        vec!["+login", "bob", "+workshop_download_item", "440", "987654321", "+quit"]
    );
}

#[test]
fn decimal_strings() {
    assert_eq!(decimal_string(0), "0");
    assert_eq!(decimal_string(7), "7");
    assert_eq!(decimal_string(10), "10");
    assert_eq!(decimal_string(1234567890), "1234567890");
    assert_eq!(decimal_string(u64::MAX), "18446744073709551615");
}

#[test]
fn download_args_for_resolved_item() {
    let item = WorkshopItem::new(123).resolved(Some(4000));
    let args = download_args(&item, &Login::Anonymous).unwrap();
    assert_eq!(
        args,
        vec!["+login", "anonymous", "+workshop_download_item", "4000", "123", "+quit"]
    );
}

#[test]
fn download_args_for_unresolved_item() {
    let item = WorkshopItem::new(55).resolved(None);
    assert_eq!(
        download_args(&item, &Login::Anonymous),
        Err(DownloadError::ResolutionFailed { item_id: 55 })
    );
}

#[test]
fn tool_exit_codes() {
    assert_eq!(tool_result(9, Some(0)), Ok(()));
    assert_eq!(
        tool_result(9, Some(5)),
        Err(DownloadError::ToolFailed { item_id: 9, code: Some(5) })
    );
    assert_eq!(tool_result(9, None), Err(DownloadError::ToolFailed { item_id: 9, code: None }));
}
