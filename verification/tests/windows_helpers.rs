use sing_box_for_windows::autostart::{
    is_registered, reg_add_args, reg_add_outcome, reg_delete_args, reg_delete_outcome,
    reg_query_args, LEGACY_REG_VALUE, REG_KEY, REG_VALUE,
};
use sing_box_for_windows::elevation::{
    build_task_xml, persistent_state_error, plan_persistent_state, schtasks_delete_outcome,
    schtasks_outcome, task_user_id, xml_escape, ADMIN_TASK_NAME, LEGACY_ADMIN_TASK_NAME,
    TASK_XML_HEAD,
};
use sing_box_for_windows::shell::{delete_failed, open_command};
use sing_box_for_windows::win::{encode_utf16, utf16le_with_bom, wide};

#[test]
fn utf16_encoding_matches_std() {
    for s in ["", "abc", "C:\\Program Files\\x", "ü€🙂"] {
        let expected: Vec<u16> = s.encode_utf16().collect();
        assert_eq!(encode_utf16(s), expected);
        let mut nul = expected.clone();
        nul.push(0);
        assert_eq!(wide(s), nul);
    }
}

#[test]
fn utf16le_file_bytes_start_with_a_bom() {
    assert_eq!(utf16le_with_bom("A€"), vec![0xFF, 0xFE, 0x41, 0x00, 0xAC, 0x20]);
    assert_eq!(utf16le_with_bom(""), vec![0xFF, 0xFE]);
}

#[test]
fn xml_escaping() {
    assert_eq!(xml_escape("a&b<c>d\"e'f"), "a&amp;b&lt;c&gt;d&quot;e&apos;f");
    assert_eq!(xml_escape("C:\\plain path"), "C:\\plain path");
    let escaped = xml_escape("<\"'>&");
    assert!(!escaped.contains('<') && !escaped.contains('>'));
    assert!(!escaped.contains('"') && !escaped.contains('\''));
}

#[test]
fn task_account() {
    assert_eq!(task_user_id(Some("CORP".into()), Some("ann".into())), "CORP\\ann");
    assert_eq!(task_user_id(None, Some("ann".into())), "ann");
    assert_eq!(task_user_id(Some("CORP".into()), None), "S-1-5-18");
    assert_eq!(task_user_id(None, None), "S-1-5-18");
    assert_eq!(ADMIN_TASK_NAME, "sing-box-for-windows-elevated");
    assert_eq!(LEGACY_ADMIN_TASK_NAME, "sing-box-launcher-elevated");
}

#[test]
fn task_xml_layout() {
    let with = build_task_xml("C:\\a&b\\sb.exe", "C:\\a&b", true, "PC\\u<1>");
    assert!(with.starts_with(TASK_XML_HEAD));
    assert!(with.contains("<LogonTrigger>"));
    assert!(with.contains("      <UserId>PC\\u&lt;1&gt;</UserId>\n    </LogonTrigger>"));
    assert!(with.contains("<Command>C:\\a&amp;b\\sb.exe</Command>"));
    assert!(with.contains("<WorkingDirectory>C:\\a&amp;b</WorkingDirectory>"));
    assert!(with.contains("<RunLevel>HighestAvailable</RunLevel>"));
    assert!(with.ends_with("</Task>\n"));
    let without = build_task_xml("x.exe", "d", false, "u");
    assert!(!without.contains("Triggers"));
    assert_eq!(without.matches("<UserId>u</UserId>").count(), 1);
}

#[test]
fn persistent_plans() {
    let p = plan_persistent_state(true, true, true);
    assert_eq!((p.register_task, p.delete_task, p.run_key), (Some(true), false, false));
    let p = plan_persistent_state(true, true, false);
    assert_eq!((p.register_task, p.delete_task, p.run_key), (Some(false), false, false));
    let p = plan_persistent_state(true, false, true);
    assert_eq!((p.register_task, p.delete_task, p.run_key), (None, false, false));
    let p = plan_persistent_state(false, true, true);
    assert_eq!((p.register_task, p.delete_task, p.run_key), (None, true, true));
    let p = plan_persistent_state(false, false, false);
    assert_eq!((p.register_task, p.delete_task, p.run_key), (None, true, false));
}

#[test]
fn persistent_errors() {
    assert_eq!(
        persistent_state_error(true, Some(Err("t".into())), Err("k".into())).as_deref(),
        Some("Failed to clear Windows autostart entry: k")
    );
    assert_eq!(
        persistent_state_error(false, Some(Ok(())), Err("k".into())).as_deref(),
        Some("Failed to update Windows autostart entry: k")
    );
    assert_eq!(
        persistent_state_error(true, Some(Err("t".into())), Ok(())).as_deref(),
        Some("Failed to register persistent admin task: t")
    );
    assert_eq!(
        persistent_state_error(false, Some(Err("t".into())), Ok(())).as_deref(),
        Some("Failed to remove persistent admin task: t")
    );
    assert_eq!(persistent_state_error(true, None, Ok(())), None);
}

#[test]
fn schtasks_results() {
    assert_eq!(schtasks_outcome("/create", true, "noise"), Ok(()));
    assert_eq!(
        schtasks_outcome("/run", false, "  ERROR: Access is denied.\r\n"),
        Err("schtasks /run failed: ERROR: Access is denied.".to_string())
    );
    assert_eq!(schtasks_delete_outcome(false, "ERROR: The system cannot find the file specified."), Ok(()));
    assert_eq!(schtasks_delete_outcome(false, "ERROR: The task DOES NOT EXIST"), Ok(()));
    assert_eq!(
        schtasks_delete_outcome(false, " ERROR: Access Is Denied. "),
        Err("schtasks /delete failed: error: access is denied.".to_string())
    );
    assert_eq!(schtasks_delete_outcome(true, "whatever"), Ok(()));
}

#[test]
fn registry_arguments() {
    assert_eq!(REG_KEY, "HKCU\\Software\\Microsoft\\Windows\\CurrentVersion\\Run");
    assert_eq!(
        reg_add_args("C:\\Apps\\sb.exe"),
        vec!["add", REG_KEY, "/v", REG_VALUE, "/t", "REG_SZ", "/d", "C:\\Apps\\sb.exe", "/f"]
    );
    assert_eq!(reg_delete_args(LEGACY_REG_VALUE), vec!["delete", REG_KEY, "/v", "sing-box-launcher", "/f"]);
    assert_eq!(reg_query_args(), vec!["query", REG_KEY, "/v", "sing-box-for-windows"]);
}

#[test]
fn registry_answers() {
    let out = "\r\nHKEY_CURRENT_USER\\...\\Run\r\n    sing-box-for-windows    REG_SZ    C:\\APPS\\SB.EXE\r\n";
    assert!(is_registered(true, out, "C:\\Apps\\sb.exe"));
    assert!(is_registered(true, out, "C:/Apps/sb.exe"));
    assert!(!is_registered(false, out, "C:\\Apps\\sb.exe"));
    assert!(!is_registered(true, out, "D:\\other.exe"));
    assert_eq!(reg_add_outcome(true), Ok(()));
    assert_eq!(reg_add_outcome(false), Err("reg add failed".to_string()));
    assert_eq!(reg_delete_outcome(false, "ERROR: The system was unable to find the specified registry key or value."), Ok(()));
    assert_eq!(
        reg_delete_outcome(false, " ERROR: Access is denied.\r\n"),
        Err("reg delete failed: ERROR: Access is denied.".to_string())
    );
    assert_eq!(reg_delete_outcome(false, "Cannot Find it"), Err("reg delete failed: Cannot Find it".to_string()));
}

#[test]
fn opening_paths() {
    let e = open_command(false, false, "C:\\nope").err();
    assert_eq!(e.as_deref(), Some("path does not exist: C:\\nope"));
    let dir = open_command(true, true, "C:\\r\\core").ok().unwrap();
    assert_eq!(dir.program, "explorer.exe");
    assert_eq!(dir.args, vec!["C:\\r\\core"]);
    assert_eq!(dir.launch_error, "failed to launch explorer");
    let file = open_command(true, false, "C:\\My Files\\x.exe").ok().unwrap();
    assert_eq!(file.program, "cmd");
    assert_eq!(file.args, vec!["/c", "start", "", "C:\\My Files\\x.exe"]);
    assert_eq!(file.launch_error, "failed to open file");
    assert_eq!(delete_failed("C:\\w\\cache.db"), "failed to delete: C:\\w\\cache.db");
}

use sing_box_for_windows::tray::{
    close_hides_iconic, is_main_window, menu_choice, tray_message, MenuChoice, TrayEffect,
    APP_TITLE, ID_MENU_EXIT, ID_MENU_SHOW, WM_CLOSE, WM_DESTROY, WM_LBUTTONDBLCLK, WM_LBUTTONUP,
    WM_RBUTTONUP, WM_SET_MAIN_HWND, WM_TRAY_CALLBACK,
};

#[test]
fn tray_messages() {
    assert_eq!(tray_message(WM_TRAY_CALLBACK, WM_LBUTTONUP as u64), TrayEffect::ShowMain);
    assert_eq!(tray_message(WM_TRAY_CALLBACK, WM_LBUTTONDBLCLK as u64), TrayEffect::ShowMain);
    assert_eq!(tray_message(WM_TRAY_CALLBACK, WM_RBUTTONUP as u64), TrayEffect::ShowMenu);
    assert_eq!(tray_message(WM_TRAY_CALLBACK, 0x1234_0000 | WM_RBUTTONUP as u64), TrayEffect::ShowMenu);
    assert_eq!(tray_message(WM_TRAY_CALLBACK, 0x0200), TrayEffect::Ignore);
    assert_eq!(tray_message(WM_SET_MAIN_HWND, 0), TrayEffect::SetMainHwnd);
    assert_eq!(tray_message(WM_CLOSE, 0), TrayEffect::DestroyWindow);
    assert_eq!(tray_message(WM_DESTROY, 0), TrayEffect::RemoveIconAndQuit);
    assert_eq!(tray_message(0x000F, 0), TrayEffect::Default);
    assert_eq!(WM_TRAY_CALLBACK, 0x0400 + 1);
}

#[test]
fn tray_menu_and_window_search() {
    assert_eq!(menu_choice(ID_MENU_SHOW), MenuChoice::Show);
    assert_eq!(menu_choice(ID_MENU_EXIT), MenuChoice::Exit);
    assert_eq!(menu_choice(0), MenuChoice::Nothing);
    assert!(is_main_window(10, 20, 7, 7, APP_TITLE));
    assert!(!is_main_window(20, 20, 7, 7, APP_TITLE));
    assert!(!is_main_window(10, 20, 8, 7, APP_TITLE));
    assert!(!is_main_window(10, 20, 7, 7, "sing-box tray"));
    assert!(close_hides_iconic(WM_CLOSE, true, true));
    assert!(!close_hides_iconic(WM_CLOSE, false, true));
    assert!(!close_hides_iconic(WM_CLOSE, true, false));
    assert!(!close_hides_iconic(WM_DESTROY, true, true));
}
