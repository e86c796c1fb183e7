use chat_window_bridge::{
    chat_window_label, content_root, window_config, HostCall, Operation, Visibility,
    WindowController,
    WindowHandle, WindowRegistry, WindowState,
};

fn controller() -> WindowController {
    WindowController::new(content_root(true, None))
}

fn is_create(call: &HostCall) -> bool {
    matches!(call, HostCall::Create { .. })
}

fn open(c: &mut WindowController) -> HostCall {
    let label = chat_window_label();
    let call = c.plan(Operation::OpenOrShow, &label);
    let r = c.apply(Operation::OpenOrShow, &label, Ok(()));
    assert!(r.success);
    call
}

fn close(c: &mut WindowController) -> HostCall {
    let label = chat_window_label();
    let call = c.plan(Operation::Close, &label);
    let r = c.apply(Operation::Close, &label, Ok(()));
    assert!(r.success);
    call
}

#[test]
fn repeated_open_builds_one_visible_window() {
    for n in 1..6 {
        let mut c = controller();
        let mut constructed = 0;
        for _ in 0..n {
            if is_create(&open(&mut c)) {
                constructed += 1;
            }
        }
        assert_eq!(constructed, 1);
        assert_eq!(c.state(&chat_window_label()), WindowState::Visible);
    }
}

#[test]
fn close_without_window_is_a_successful_noop() {
    let mut c = controller();
    let label = chat_window_label();
    let call = c.plan(Operation::Close, &label);
    assert!(matches!(call, HostCall::Nothing));
    let r = c.apply(Operation::Close, &label, Ok(()));
    assert!(r.success);
    assert_eq!(r.message.as_deref(), Some("Janela de chat fechada via Tauri desktop"));
    assert_eq!(r.error, None);
    assert_eq!(c.state(&label), WindowState::Absent);
}

#[test]
fn close_without_window_ignores_host_report() {
    let mut c = controller();
    let label = chat_window_label();
    let r = c.apply(Operation::Close, &label, Err("unused".to_string()));
    assert!(r.success);
    assert_eq!(c.state(&label), WindowState::Absent);
}

#[test]
fn two_serialized_opens_construct_once() {
    let mut c = controller();
    let first = open(&mut c);
    let second = open(&mut c);
    assert!(is_create(&first));
    match second {
        HostCall::ShowAndFocus { label } => assert_eq!(label, "chat-window"),
        other => panic!("unexpected call {:?}", other),
    }
}

#[test]
fn reopen_after_close_reuses_window() {
    let mut c = controller();
    assert!(is_create(&open(&mut c)));
    match close(&mut c) {
        HostCall::Hide { label } => assert_eq!(label, "chat-window"),
        other => panic!("unexpected call {:?}", other),
    }
    assert_eq!(c.state(&chat_window_label()), WindowState::Hidden);
    assert!(matches!(open(&mut c), HostCall::ShowAndFocus { .. }));
    assert_eq!(c.state(&chat_window_label()), WindowState::Visible);
}

#[test]
fn close_hidden_window_stays_hidden() {
    let mut c = controller();
    open(&mut c);
    close(&mut c);
    assert!(matches!(close(&mut c), HostCall::Hide { .. }));
    assert_eq!(c.state(&chat_window_label()), WindowState::Hidden);
}

#[test]
fn create_shows_development_url() {
    let c = controller();
    match c.plan(Operation::OpenOrShow, &chat_window_label()) {
        HostCall::Create { label, url, .. } => {
            assert_eq!(label, "chat-window");
            assert_eq!(url, "http://localhost:3001/chat-window");
        }
        other => panic!("unexpected call {:?}", other),
    }
}

#[test]
fn create_shows_bundled_url_in_release() {
    let c = WindowController::new(content_root(false, Some("http://example.test".to_string())));
    match c.plan(Operation::OpenOrShow, &chat_window_label()) {
        HostCall::Create { url, .. } => assert_eq!(url, "tauri://localhost/chat-window"),
        other => panic!("unexpected call {:?}", other),
    }
}

#[test]
fn construction_failure_is_reported_and_leaves_window_absent() {
    let mut c = controller();
    let label = chat_window_label();
    let r = c.apply(Operation::OpenOrShow, &label, Err("invalid url".to_string()));
    assert!(!r.success);
    assert_eq!(r.error.as_deref(), Some("invalid url"));
    assert_eq!(r.message, None);
    assert_eq!(c.state(&label), WindowState::Absent);
    assert!(is_create(&c.plan(Operation::OpenOrShow, &label)));
}

#[test]
fn hide_failure_is_reported_and_keeps_window_visible() {
    let mut c = controller();
    open(&mut c);
    let label = chat_window_label();
    let r = c.apply(Operation::Close, &label, Err("Erro ao fechar janela".to_string()));
    assert!(!r.success);
    assert_eq!(r.error.as_deref(), Some("Erro ao fechar janela"));
    assert_eq!(c.state(&label), WindowState::Visible);
}

#[test]
fn labels_are_independent() {
    let mut c = controller();
    let other = "settings".to_string();
    match c.plan(Operation::OpenOrShow, &other) {
        HostCall::Create { url, .. } => assert_eq!(url, "http://localhost:3001/settings"),
        call => panic!("unexpected call {:?}", call),
    }
    assert!(c.apply(Operation::OpenOrShow, &other, Ok(())).success);
    assert_eq!(c.state(&other), WindowState::Visible);
    assert_eq!(c.state(&chat_window_label()), WindowState::Absent);
}

#[test]
fn registry_bookkeeping() {
    let mut r = WindowRegistry::new();
    let a = "a".to_string();
    let b = "b".to_string();
    assert!(r.lookup(&a).is_none());
    r.insert(WindowHandle { label: a.clone(), visibility: Visibility::Visible });
    r.insert(WindowHandle { label: b.clone(), visibility: Visibility::Hidden });
    r.insert(WindowHandle { label: a.clone(), visibility: Visibility::Hidden });
    let h = r.lookup(&a).unwrap();
    assert_eq!(h.label, "a");
    assert_eq!(h.visibility, Visibility::Hidden);
    assert!(r.set_visibility(&b, Visibility::Visible));
    assert_eq!(r.lookup(&b).unwrap().visibility, Visibility::Visible);
    assert!(!r.set_visibility(&"c".to_string(), Visibility::Visible));
    assert!(r.lookup(&"c".to_string()).is_none());
    r.remove(&a);
    assert!(r.lookup(&a).is_none());
    assert!(r.lookup(&b).is_some());
    r.remove(&a);
    assert!(r.lookup(&b).is_some());
}

#[test]
fn show_failure_on_existing_window_still_succeeds() {
    let mut c = controller();
    open(&mut c);
    close(&mut c);
    let label = chat_window_label();
    let r = c.apply(Operation::OpenOrShow, &label, Err("show failed".to_string()));
    assert!(r.success);
    assert_eq!(r.error, None);
    assert_eq!(r.message.as_deref(), Some("Janela de chat aberta via Tauri desktop"));
    assert_eq!(c.state(&label), WindowState::Visible);
    let again = c.apply(Operation::OpenOrShow, &label, Err("focus failed".to_string()));
    assert!(again.success);
    assert_eq!(c.state(&label), WindowState::Visible);
}

#[test]
fn destroyed_window_is_rebuilt() {
    let mut c = controller();
    open(&mut c);
    let label = chat_window_label();
    c.forget(&label);
    assert_eq!(c.state(&label), WindowState::Absent);
    assert!(is_create(&open(&mut c)));
    assert_eq!(c.state(&label), WindowState::Visible);
    c.forget(&"other".to_string());
    assert_eq!(c.state(&label), WindowState::Visible);
}

#[test]
fn new_windows_get_the_fixed_configuration() {
    let expected = window_config();
    assert_eq!(expected.title, "Chat - RequestCenter");
    assert_eq!((expected.width, expected.height), (400, 600));
    assert_eq!((expected.min_width, expected.min_height), (350, 400));
    assert_eq!((expected.max_width, expected.max_height), (600, 800));
    assert!(expected.resizable && expected.centered && expected.decorated);
    assert!(!expected.transparent && expected.always_on_top && !expected.skip_taskbar);
    assert!(expected.visible);
    let c = controller();
    match c.plan(Operation::OpenOrShow, &chat_window_label()) {
        HostCall::Create { config, .. } => {
            assert_eq!(config.title, expected.title);
            assert_eq!((config.width, config.height, config.max_width), (400, 600, 600));
        }
        other => panic!("unexpected call {:?}", other),
    }
}
