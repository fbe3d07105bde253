use echoinput::hotkey::HotKeyId;
use echoinput::icons::Icon;
use echoinput::tray::{TrayCommand, TrayItem};

#[test]
fn tray_items_decode() {
    assert_eq!(TrayItem::command(TrayItem::OPEN_SETTINGS), Some(TrayCommand::OpenSettings));
    assert_eq!(TrayItem::command(TrayItem::RELOAD_SETTINGS), Some(TrayCommand::ReloadSettings));
    assert_eq!(TrayItem::command(TrayItem::OPEN_LOG), Some(TrayCommand::OpenLog));
    assert_eq!(TrayItem::command(TrayItem::QUIT), Some(TrayCommand::Quit));
    assert_eq!(TrayItem::command("settings"), None);
    assert_eq!(TrayItem::QUIT, "quit");
}

#[test]
fn hotkey_ids_are_distinct() {
    let ids = [HotKeyId::OPEN_SETTINGS, HotKeyId::RELOAD_SETTINGS, HotKeyId::OPEN_LOG, HotKeyId::QUIT];
    assert_eq!(ids, [0, 1, 2, 3]);
}

#[test]
fn icon_codepoints() {
    assert_eq!(Icon::KbdAlt.codepoint(), '\u{ea01}');
    assert_eq!(Icon::KbdShift.codepoint(), '\u{ea0f}');
    assert_eq!(Icon::KbdArrowUp.codepoint(), '\u{ea12}');
}
