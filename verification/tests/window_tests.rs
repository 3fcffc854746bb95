use win32_hello::dialog::FATAL_EXIT_CODE;
use win32_hello::dialog::fatal_dialog;
use win32_hello::dialog::info_dialog;
use win32_hello::placement::CW_USEDEFAULT;
use win32_hello::placement::WinRect;
use win32_hello::wide::win32_str;
use win32_hello::window::CS_HREDRAW;
use win32_hello::window::CS_OWNDC;
use win32_hello::window::CS_VREDRAW;
use win32_hello::window::WS_OVERLAPPEDWINDOW;
use win32_hello::window::WS_VISIBLE;
use win32_hello::window::Win32Window;
use win32_hello::window::pump_decision;

#[test]
fn create_request_for_the_startup_window() {
    let req = Win32Window::create_request("HelloApp", "Hello world!", WinRect::some(0, 0, 200, 100));
    assert_eq!(req.class_name, win32_str("HelloApp"));
    assert_eq!(req.window_title, win32_str("Hello world!"));
    assert_eq!(req.class_style, CS_OWNDC | CS_HREDRAW | CS_VREDRAW);
    assert_eq!(req.class_style, 0x0023);
    assert_eq!(req.window_style, WS_OVERLAPPEDWINDOW | WS_VISIBLE);
    assert_eq!(req.window_style, 0x10CF_0000);
    assert_eq!((req.x, req.y, req.width, req.height), (0, 0, 200, 100));
}

#[test]
fn create_request_without_placement_uses_the_sentinel() {
    let req = Win32Window::create_request("HelloApp", "Hello world!", None);
    assert_eq!(
        (req.x, req.y, req.width, req.height),
        (CW_USEDEFAULT, CW_USEDEFAULT, CW_USEDEFAULT, CW_USEDEFAULT)
    );
}

#[test]
fn null_handle_is_a_creation_error() {
    match Win32Window::from_create_result(0) {
        Ok(_) => panic!("a null handle must not yield a window"),
        Err(e) => assert_eq!(e.message, "Could not create Win32 window!"),
    }
}

#[test]
fn nonzero_handle_yields_the_owning_wrapper() {
    let w = Win32Window::from_create_result(0x1234).expect("nonzero handle must succeed");
    assert_eq!(w.raw_handle(), 0x1234);
}

#[test]
fn creation_failure_requests_the_fatal_dialog_and_exit_code() {
    // The run whose creation the host rejects: exactly one fatal-style
    // dialog is requested, and the process exit status is 1.
    let err = Win32Window::from_create_result(0).unwrap_err();
    let d = fatal_dialog(err.message);
    assert_eq!(d.title, "Fatal Error!");
    assert_eq!(d.body, "Could not create Win32 window!");
    assert_eq!(FATAL_EXIT_CODE, 1);
}

#[test]
fn end_of_stream_stops_the_pump() {
    // A normal run: messages keep the loop alive until the host signals
    // end-of-stream (status 0), which stops it; a fatal retrieval error
    // (status -1) stops it the same way.
    assert!(pump_decision(1));
    assert!(pump_decision(i32::MAX));
    assert!(!pump_decision(0));
    assert!(!pump_decision(-1));
}

#[test]
fn dialog_titles_are_fixed() {
    let info = info_dialog(String::from("hello"));
    assert_eq!(info.title, "Info Message");
    assert_eq!(info.body, "hello");
    let fatal = fatal_dialog(String::from("gone"));
    assert_eq!(fatal.title, "Fatal Error!");
    assert_eq!(fatal.body, "gone");
}
