use webview_container::{
    ContainerEvent, ControlHandle, EngineAction, EngineError, EnvironmentRequest, HostEvent,
    LifecycleState, ReadyValue, Rect, TeardownStep, WebviewContainer,
};

fn built_container(window: u64, frame: u64) -> WebviewContainer {
    let mut c = WebviewContainer::default();
    let b = WebviewContainer::builder()
        .window(ControlHandle::Hwnd(window))
        .size((1024, 168));
    let r = b.build(&mut c, ControlHandle::Hwnd(frame), 0x10000, &Vec::new());
    assert!(r.is_ok());
    c
}

#[test]
fn build_without_window_returns_configuration_error() {
    let mut c = WebviewContainer::default();
    let b = WebviewContainer::builder().size((1024, 168));
    let r = b.build(&mut c, ControlHandle::Hwnd(7), 0x10000, &Vec::new());
    assert_eq!(r, Err(EngineError::Initialization));
    assert_eq!(c.state, LifecycleState::Uninitialized);
    assert!(c.frame.is_none());
    assert!(!c.has_event_handler);
    assert!(c.raw_event_handler_id.is_none());
    assert!(c.ready_fut().is_err());
}

#[test]
fn build_with_unresolved_window_handle_fails_control_create() {
    let mut c = WebviewContainer::default();
    let b = WebviewContainer::builder().window(ControlHandle::NoHandle);
    let r = b.build(&mut c, ControlHandle::Hwnd(7), 0x10000, &Vec::new());
    assert_eq!(r, Err(EngineError::ControlCreate));
    assert_eq!(c.state, LifecycleState::Uninitialized);
    assert!(c.frame.is_none());
}

#[test]
fn build_with_failed_frame_fails_control_create() {
    let mut c = WebviewContainer::default();
    let b = WebviewContainer::builder().window(ControlHandle::Hwnd(42));
    let r = b.build(&mut c, ControlHandle::NoHandle, 0x10000, &Vec::new());
    assert_eq!(r, Err(EngineError::ControlCreate));
    assert_eq!(c.state, LifecycleState::Uninitialized);
    assert!(c.frame.is_none());
}

#[test]
fn build_creates_frame_and_pending_signal() {
    let c = built_container(42, 7);
    assert_eq!(c.state, LifecycleState::FrameReady);
    let frame = c.frame.unwrap();
    assert_eq!(frame.size, (1024, 168));
    assert_eq!(frame.handle, 7);
    assert_eq!(c.window_hwnd, Some(42));
    let signal = c.ready_fut().unwrap();
    assert!(signal.get().is_none());
    assert!(!signal.is_completed());
    assert!(c.has_event_handler);
    assert_eq!(c.raw_event_handler_id, Some(0x10000));
}

#[test]
fn build_records_fresh_environment_request_by_default() {
    let c = built_container(42, 7);
    match c.env_request.as_ref().unwrap() {
        EnvironmentRequest::Fresh(params) => {
            assert!(params.browser_executable_folder.is_none());
            assert!(params.user_data_folder.is_none());
            assert!(!params.allow_single_sign_on_using_osprimary_account);
        }
        EnvironmentRequest::Reuse(_) => panic!("expected a fresh environment request"),
    }
}

#[test]
fn build_records_reused_environment_request() {
    let mut c = WebviewContainer::default();
    let b = WebviewContainer::builder()
        .window(ControlHandle::Hwnd(42))
        .webview_env(5);
    let r = b.build(&mut c, ControlHandle::Hwnd(7), 0x10000, &Vec::new());
    assert!(r.is_ok());
    assert_eq!(c.env_request, Some(EnvironmentRequest::Reuse(5)));
}

#[test]
fn resize_before_ready_is_noop() {
    let mut c = built_container(42, 7);
    let rect = Rect { left: 0, top: 0, right: 50, bottom: 60 };
    let action = c.handle_event(ContainerEvent::FrameResize, Some(rect));
    assert_eq!(action, EngineAction::Nothing);
    assert_eq!(c.state, LifecycleState::FrameReady);
}

#[test]
fn completion_stores_exact_triple() {
    let mut c = built_container(42, 7);
    c.complete_controller(11, 22, 33, true);
    assert_eq!(c.state, LifecycleState::Ready);
    assert_eq!(c.webview_ctrl, Some(22));
    let v = c.ready_block().unwrap();
    assert_eq!(v, ReadyValue { environment: 11, controller: 22, webview: 33 });
    let signal = c.ready_fut().unwrap();
    assert_eq!(signal.get(), Some(ReadyValue { environment: 11, controller: 22, webview: 33 }));
}

#[test]
fn completion_without_applied_bounds_leaves_signal_pending() {
    let mut c = built_container(42, 7);
    c.complete_controller(11, 22, 33, false);
    assert_eq!(c.state, LifecycleState::FrameReady);
    assert!(c.webview_ctrl.is_none());
    assert!(!c.ready_fut().unwrap().is_completed());
}

#[test]
fn minimize_hides_and_restore_shows() {
    let mut c = built_container(42, 7);
    c.complete_controller(11, 22, 33, true);
    assert!(c.visible);
    let a = c.handle_event(ContainerEvent::WindowMinimize, None);
    assert_eq!(a, EngineAction::SetVisible(false));
    assert!(!c.visible);
    let a = c.handle_event(ContainerEvent::WindowRestore, None);
    assert_eq!(a, EngineAction::SetVisible(true));
    assert!(c.visible);
    let a = c.handle_event(ContainerEvent::WindowRestore, None);
    assert_eq!(a, EngineAction::SetVisible(true));
    assert!(c.visible);
}

#[test]
fn repeated_minimize_then_restore_ends_visible() {
    let mut c = built_container(42, 7);
    c.complete_controller(11, 22, 33, true);
    c.handle_event(ContainerEvent::WindowMinimize, None);
    c.handle_event(ContainerEvent::WindowMinimize, None);
    c.handle_event(ContainerEvent::WindowRestore, None);
    assert!(c.visible);
}

#[test]
fn visibility_survives_events_without_minimize() {
    let mut c = built_container(42, 7);
    c.complete_controller(11, 22, 33, true);
    c.handle_event(ContainerEvent::WindowMove, None);
    c.handle_event(ContainerEvent::FrameResize, None);
    c.handle_event(ContainerEvent::WindowRestore, None);
    c.handle_event(ContainerEvent::FrameMove, None);
    c.handle_event(ContainerEvent::Other, None);
    assert!(c.visible);
}

#[test]
fn move_events_forward_position_change() {
    let mut c = built_container(42, 7);
    c.complete_controller(11, 22, 33, true);
    assert_eq!(c.handle_event(ContainerEvent::WindowMove, None), EngineAction::NotifyPositionChanged);
    assert_eq!(c.handle_event(ContainerEvent::FrameMove, None), EngineAction::NotifyPositionChanged);
    assert_eq!(c.handle_event(ContainerEvent::Other, None), EngineAction::Nothing);
}

#[test]
fn resize_when_ready_aligns_to_client_rect() {
    let mut c = built_container(42, 7);
    c.complete_controller(11, 22, 33, true);
    let rect = Rect { left: 1, top: 2, right: 300, bottom: 400 };
    let a = c.handle_event(ContainerEvent::FrameResize, Some(rect));
    assert_eq!(a, EngineAction::SetBounds(rect));
}

#[test]
fn resize_when_ready_falls_back_to_frame_geometry() {
    let mut c = built_container(42, 7);
    c.complete_controller(11, 22, 33, true);
    let a = c.handle_event(ContainerEvent::FrameResize, None);
    assert_eq!(a, EngineAction::SetBounds(Rect { left: 0, top: 0, right: 1024, bottom: 168 }));
}

#[test]
fn resize_after_closing_is_noop() {
    let mut c = built_container(42, 7);
    c.complete_controller(11, 22, 33, true);
    c.teardown();
    let rect = Rect { left: 0, top: 0, right: 50, bottom: 60 };
    let a = c.handle_event(ContainerEvent::FrameResize, Some(rect));
    assert_eq!(a, EngineAction::Nothing);
    assert!(c.is_closing);
}

#[test]
fn teardown_steps_come_in_order() {
    let mut c = built_container(42, 7);
    c.complete_controller(11, 22, 33, true);
    let steps = c.teardown();
    assert_eq!(
        steps,
        vec![
            TeardownStep::UnbindRawHandler(0x10000),
            TeardownStep::UnbindEventHandler,
            TeardownStep::CloseController(22),
            TeardownStep::DestroyFrame(7),
        ]
    );
    assert_eq!(c.state, LifecycleState::Closed);
}

#[test]
fn teardown_skips_close_when_never_ready() {
    let mut c = built_container(42, 7);
    let steps = c.teardown();
    assert_eq!(
        steps,
        vec![
            TeardownStep::UnbindRawHandler(0x10000),
            TeardownStep::UnbindEventHandler,
            TeardownStep::DestroyFrame(7),
        ]
    );
}

#[test]
fn teardown_is_idempotent() {
    let mut c = built_container(42, 7);
    c.teardown();
    let steps = c.teardown();
    assert!(steps.is_empty());
    assert_eq!(c.state, LifecycleState::Closed);
}

#[test]
fn teardown_of_unbuilt_container_does_nothing() {
    let mut c = WebviewContainer::default();
    let steps = c.teardown();
    assert!(steps.is_empty());
    assert_eq!(c.state, LifecycleState::Closed);
}

#[test]
fn late_completion_after_teardown_is_noop() {
    let mut c = built_container(42, 7);
    c.teardown();
    c.complete_controller(11, 22, 33, true);
    assert_eq!(c.state, LifecycleState::Closed);
    assert!(c.webview_ctrl.is_none());
    let signal = c.ready_fut().unwrap();
    assert!(!signal.is_completed());
}

#[test]
fn ready_fut_fails_before_build() {
    let c = WebviewContainer::default();
    assert_eq!(c.ready_fut().err(), Some(EngineError::ControlCreate));
    assert_eq!(c.ready_block().err(), Some(EngineError::ControlCreate));
}

#[test]
fn classify_attributes_events_to_their_source() {
    let c = built_container(42, 7);
    assert_eq!(
        c.classify_event(ControlHandle::Hwnd(42), HostEvent::OnWindowMinimize),
        ContainerEvent::WindowMinimize
    );
    assert_eq!(c.classify_event(ControlHandle::Hwnd(42), HostEvent::OnMove), ContainerEvent::WindowMove);
    assert_eq!(c.classify_event(ControlHandle::Hwnd(42), HostEvent::OnResize), ContainerEvent::Other);
    assert_eq!(c.classify_event(ControlHandle::Hwnd(7), HostEvent::OnResize), ContainerEvent::FrameResize);
    assert_eq!(c.classify_event(ControlHandle::Hwnd(7), HostEvent::OnMove), ContainerEvent::FrameMove);
    assert_eq!(c.classify_event(ControlHandle::Hwnd(7), HostEvent::OnWindowMinimize), ContainerEvent::Other);
    assert_eq!(c.classify_event(ControlHandle::Hwnd(9), HostEvent::OnMove), ContainerEvent::Other);
    assert_eq!(c.classify_event(ControlHandle::NoHandle, HostEvent::OnMove), ContainerEvent::Other);
}

#[test]
fn equality_is_frame_handle_identity() {
    let a = built_container(42, 7);
    let b = built_container(43, 7);
    let c = built_container(42, 8);
    assert!(a == b);
    assert!(a != c);
    assert!(WebviewContainer::default() == WebviewContainer::default());
    assert!(a != WebviewContainer::default());
}

#[test]
fn conversion_yields_frame_handle() {
    let a = built_container(42, 7);
    assert_eq!(ControlHandle::from(&a), ControlHandle::Hwnd(7));
    assert_eq!(ControlHandle::from(a), ControlHandle::Hwnd(7));
    assert_eq!(ControlHandle::from(WebviewContainer::default()), ControlHandle::NoHandle);
}
