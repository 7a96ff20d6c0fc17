use webview_container::builder::{
    is_restore_message, next_handle_id, FLAG_BORDER, FLAG_DISABLED, FLAG_VISIBLE,
};
use webview_container::geometry::align_webview_2_container;
use webview_container::signal::{ReadySignal, ReadyValue};
use webview_container::{ControlHandle, Rect, WebviewContainer, WebviewContainerFlags};

#[test]
fn setters_accumulate_frame_parameters() {
    let b = WebviewContainer::builder()
        .size((10, 20))
        .position((1, 2))
        .enabled(false)
        .parent(ControlHandle::Hwnd(9))
        .window(ControlHandle::Hwnd(3));
    assert_eq!(b.size, (10, 20));
    assert_eq!(b.position, (1, 2));
    assert!(!b.enabled);
    assert_eq!(b.parent, Some(ControlHandle::Hwnd(9)));
    assert_eq!(b.window, Some(ControlHandle::Hwnd(3)));
}

#[test]
fn setters_accumulate_environment_parameters() {
    let b = WebviewContainer::builder()
        .browser_executable_folder(String::from("C:\\browser"))
        .user_data_folder(String::from("C:\\data"))
        .additional_browser_arguments(String::from("--no-first-run"))
        .language(String::from("en-US"))
        .target_compatible_browser_version(String::from("89.0"))
        .allow_single_sign_on_using_osprimary_account(true);
    assert_eq!(b.params.browser_executable_folder.as_deref(), Some("C:\\browser"));
    assert_eq!(b.params.user_data_folder.as_deref(), Some("C:\\data"));
    assert_eq!(b.params.additional_browser_arguments.as_deref(), Some("--no-first-run"));
    assert_eq!(b.params.language.as_deref(), Some("en-US"));
    assert_eq!(b.params.target_compatible_browser_version.as_deref(), Some("89.0"));
    assert!(b.params.allow_single_sign_on_using_osprimary_account);
}

#[test]
fn flags_translate_style_bits_to_frame_flags() {
    let flags = WebviewContainerFlags::visible().union(WebviewContainerFlags::border());
    let b = WebviewContainer::builder().flags(flags);
    assert!(b.frame_flags.visible);
    assert!(b.frame_flags.border);
    assert!(!b.frame_flags.disabled);
    let b = WebviewContainer::builder().flags(WebviewContainerFlags::disabled());
    assert!(!b.frame_flags.visible);
    assert!(!b.frame_flags.border);
    assert!(b.frame_flags.disabled);
    let b = WebviewContainer::builder().flags(WebviewContainerFlags::none());
    assert!(!b.frame_flags.visible && !b.frame_flags.border && !b.frame_flags.disabled);
}

#[test]
fn flag_constants_are_the_window_style_bits() {
    assert_eq!(FLAG_VISIBLE, 0x1000_0000);
    assert_eq!(FLAG_DISABLED, 0x0800_0000);
    assert_eq!(FLAG_BORDER, 0x0080_0000);
    assert_eq!(WebviewContainerFlags::none().bits, 0);
    let all = WebviewContainerFlags::visible()
        .union(WebviewContainerFlags::disabled())
        .union(WebviewContainerFlags::border());
    assert!(all.contains(WebviewContainerFlags::visible()));
    assert!(all.contains(WebviewContainerFlags::border()));
    assert!(!WebviewContainerFlags::visible().contains(WebviewContainerFlags::border()));
}

#[test]
fn next_handle_id_skips_registered_identifiers() {
    assert_eq!(next_handle_id(0x10000, &Vec::new()), 0x10000);
    assert_eq!(next_handle_id(0x10000, &vec![0x10000, 0x10001]), 0x10002);
    assert_eq!(next_handle_id(0x10000, &vec![0x10001]), 0x10000);
    assert_eq!(next_handle_id(0x10000, &vec![0x10001, 0x10000, 0x10002]), 0x10003);
}

#[test]
fn restore_message_is_the_syscommand_subcode() {
    assert!(is_restore_message(0x0112, 0xF120));
    assert!(!is_restore_message(0x0112, 0xF030));
    assert!(!is_restore_message(0x0111, 0xF120));
}

#[test]
fn alignment_prefers_queried_client_rect() {
    let queried = Rect { left: 5, top: 6, right: 700, bottom: 800 };
    assert_eq!(align_webview_2_container(Some(queried), (1, 2), (30, 40)), queried);
}

#[test]
fn alignment_falls_back_to_tracked_geometry() {
    assert_eq!(
        align_webview_2_container(None, (1, 2), (30, 40)),
        Rect { left: 1, top: 2, right: 30, bottom: 40 }
    );
}

#[test]
fn signal_completes_once_and_replays() {
    let mut sig = ReadySignal::new();
    assert!(!sig.is_completed());
    assert!(sig.get().is_none());
    let before = sig;
    sig.complete(ReadyValue { environment: 1, controller: 2, webview: 3 });
    assert!(sig.is_completed());
    let copy = sig;
    assert_eq!(sig.get(), Some(ReadyValue { environment: 1, controller: 2, webview: 3 }));
    assert_eq!(copy.get(), Some(ReadyValue { environment: 1, controller: 2, webview: 3 }));
    assert!(!before.is_completed());
}
