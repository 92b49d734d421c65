use spotterm::devices::{
    key_action, transfer_done_status, transfer_plan, DeviceAction, DeviceEntry,
    DevicePickerState, TransferPlan,
};
use spotterm::keys::{Key, KeyCode};
use spotterm::theme;

fn dev(name: &str, id: Option<&str>, active: bool, restricted: bool) -> DeviceEntry {
    DeviceEntry {
        name: name.to_string(),
        id: id.map(|s| s.to_string()),
        type_label: "Computer".to_string(),
        volume: Some(50),
        is_active: active,
        is_restricted: restricted,
    }
}

#[test]
fn picker_starts_on_the_active_device_and_messages_an_empty_list() {
    let s = DevicePickerState::from_list(vec![dev("a", Some("1"), false, false), dev("b", Some("2"), true, false)]);
    assert_eq!(s.selected, 1);
    assert!(s.message.is_none());
    assert_eq!(s.hint(), "2 devices — ↑↓ select / Enter transfer / r refresh / Esc back");
    let empty = DevicePickerState::from_list(vec![]);
    assert_eq!(empty.selected, 0);
    assert_eq!(empty.hint(), "No playable devices. Please open the Spotify app");
    assert_eq!(empty.highlighted(), None);
}

#[test]
fn picker_keys_move_within_the_list() {
    let mut s = DevicePickerState::from_list(vec![dev("a", Some("1"), false, false), dev("b", Some("2"), false, false)]);
    assert_eq!(key_action(Key::plain(KeyCode::Up), &mut s), DeviceAction::Nothing);
    assert_eq!(s.selected, 0);
    key_action(Key::plain(KeyCode::Down), &mut s);
    key_action(Key::plain(KeyCode::Down), &mut s);
    assert_eq!(s.selected, 1);
    assert_eq!(key_action(Key::plain(KeyCode::Enter), &mut s), DeviceAction::Transfer);
    assert_eq!(key_action(Key::plain(KeyCode::Char('r')), &mut s), DeviceAction::Reload);
    assert_eq!(key_action(Key::plain(KeyCode::Esc), &mut s), DeviceAction::Close);
    assert_eq!(key_action(Key::plain(KeyCode::Char('x')), &mut s), DeviceAction::Nothing);
}

#[test]
fn transfer_refuses_restricted_and_id_less_devices() {
    let s = DevicePickerState::from_list(vec![dev("TV", Some("1"), false, true), dev("Cast", None, false, false), dev("Mac", Some("m"), false, false)]);
    match transfer_plan(&s) {
        TransferPlan::Refuse(m) => assert_eq!(m, "'TV' is restricted and cannot be transferred to"),
        other => panic!("unexpected {other:?}"),
    }
    let s2 = DevicePickerState { selected: 1, ..s };
    match transfer_plan(&s2) {
        TransferPlan::Refuse(m) => assert_eq!(m, "'Cast' has no ID and cannot be transferred to"),
        other => panic!("unexpected {other:?}"),
    }
    let s3 = DevicePickerState { selected: 2, ..s2 };
    match transfer_plan(&s3) {
        TransferPlan::Go { id, name } => assert_eq!((id.as_str(), name.as_str()), ("m", "Mac")),
        other => panic!("unexpected {other:?}"),
    }
    assert!(matches!(transfer_plan(&DevicePickerState::from_list(vec![])), TransferPlan::Nothing));
    assert_eq!(transfer_done_status("Mac"), format!("{} Moved playback to 'Mac'", theme::PLAY));
}
