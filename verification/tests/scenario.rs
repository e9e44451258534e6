//! End-to-end scenarios against the observing native layer.

use ulkit::app_core::{App, Error, Monitor, Settings, ULWindowFlags, Window, WindowFlags};
use ulkit::native::{NativeCall, NativeHost};
use ulkit::ul::Config;

#[test]
fn settings_lifecycle_records_exactly_three_calls() {
    let mut host = NativeHost::new();
    let mut settings = Settings::new(&mut host).unwrap();
    settings.set_app_name(&mut host, "Foo").unwrap();
    let addr = settings.raw();
    settings.destroy(&mut host);

    let log = host.log();
    assert_eq!(log.len(), 3);
    assert_eq!(log[0], NativeCall::CreateSettings { addr });
    assert_eq!(
        log[1],
        NativeCall::SettingsSetAppName { addr, name: b"Foo".to_vec() }
    );
    assert_eq!(log[2], NativeCall::DestroySettings { addr });
}

#[test]
fn settings_creation_failure_is_reported() {
    let mut host = NativeHost::new();
    host.stage_create_failure();
    let r = Settings::new(&mut host);
    assert!(matches!(r, Err(Error::CreationFailed(_))));
    // the failed creation attempt was still observed by the native layer
    assert_eq!(host.log()[0], NativeCall::CreateSettings { addr: 0 });
}

#[test]
fn settings_name_with_nul_is_rejected_before_any_call() {
    let mut host = NativeHost::new();
    let mut settings = Settings::new(&mut host).unwrap();
    let before = host.log_len();
    let r = settings.set_app_name(&mut host, "Fo\0o");
    assert!(matches!(r, Err(Error::InvalidArgument(_))));
    assert_eq!(host.log_len(), before);
}

#[test]
fn window_flags_reach_the_native_layer_bit_for_bit() {
    let flags = WindowFlags::from_flag(ULWindowFlags::kWindowFlags_Borderless)
        .with(ULWindowFlags::kWindowFlags_Resizable);
    assert_eq!(flags.bits(), 0b00000101);

    let mut host = NativeHost::new();
    let monitor = Monitor::from_raw(host.stage_monitor(1920, 1080)).unwrap();
    let window = Window::new(&mut host, &monitor, 640, 480, false, flags).unwrap();
    let addr = window.raw();

    assert_eq!(
        *host.log().last().unwrap(),
        NativeCall::CreateWindow {
            addr,
            monitor: monitor.raw(),
            width: 640,
            height: 480,
            fullscreen: false,
            flags: 0b00000101,
        }
    );
    window.destroy(&mut host);
}

#[test]
fn each_window_flag_carries_its_documented_bit() {
    assert_eq!(ULWindowFlags::kWindowFlags_Borderless.bits(), 1);
    assert_eq!(ULWindowFlags::kWindowFlags_Titled.bits(), 2);
    assert_eq!(ULWindowFlags::kWindowFlags_Resizable.bits(), 4);
    assert_eq!(ULWindowFlags::kWindowFlags_Maximizable.bits(), 8);
    assert_eq!(ULWindowFlags::kWindowFlags_Hidden.bits(), 16);
    let all = WindowFlags::empty()
        .with(ULWindowFlags::kWindowFlags_Borderless)
        .with(ULWindowFlags::kWindowFlags_Titled)
        .with(ULWindowFlags::kWindowFlags_Resizable)
        .with(ULWindowFlags::kWindowFlags_Maximizable)
        .with(ULWindowFlags::kWindowFlags_Hidden);
    assert_eq!(all.bits(), 0b00011111);
    assert!(all.contains(ULWindowFlags::kWindowFlags_Titled));
    assert!(!WindowFlags::empty().contains(ULWindowFlags::kWindowFlags_Titled));
}

#[test]
fn hidden_flag_decides_initial_visibility() {
    let mut host = NativeHost::new();
    let monitor = Monitor::from_raw(host.stage_monitor(800, 600)).unwrap();
    let visible = Window::new(&mut host, &monitor, 100, 100, false, WindowFlags::empty()).unwrap();
    assert!(visible.is_visible(&host));
    let hidden = Window::new(
        &mut host,
        &monitor,
        100,
        100,
        false,
        WindowFlags::from_flag(ULWindowFlags::kWindowFlags_Hidden),
    )
    .unwrap();
    assert!(!hidden.is_visible(&host));
    visible.destroy(&mut host);
    hidden.destroy(&mut host);
}

#[test]
fn window_operations_update_the_model() {
    let mut host = NativeHost::new();
    let monitor = Monitor::from_raw(host.stage_monitor(1000, 1000)).unwrap();
    let window = Window::new(&mut host, &monitor, 200, 100, false, WindowFlags::empty()).unwrap();
    assert_eq!(window.width(&host), 200);
    assert_eq!(window.height(&host), 100);
    assert!(!window.is_fullscreen(&host));

    window.move_to(&mut host, 7, 9);
    assert_eq!(window.position_x(&host), 7);
    assert_eq!(window.position_y(&host), 9);

    window.move_to_center(&mut host);
    assert_eq!(window.position_x(&host), 400);
    assert_eq!(window.position_y(&host), 450);

    window.set_title(&mut host, "hello").unwrap();
    assert!(matches!(
        host.log().last().unwrap(),
        NativeCall::WindowSetTitle { .. }
    ));
    assert!(window.set_title(&mut host, "he\0llo").is_err());

    window.set_visible(&mut host, false);
    assert!(!window.is_visible(&host));
    window.show(&mut host);
    assert!(window.is_visible(&host));
    window.close(&mut host);
    assert!(!window.is_visible(&host));
    window.destroy(&mut host);
}

#[test]
fn app_with_defaults_builds_and_tears_down_its_helpers() {
    let mut host = NativeHost::new();
    let app = App::with_defaults(&mut host).unwrap();

    let log = host.log();
    assert_eq!(log.len(), 5);
    assert!(matches!(log[0], NativeCall::CreateSettings { .. }));
    assert!(matches!(log[1], NativeCall::CreateConfig { .. }));
    assert!(matches!(log[2], NativeCall::CreateApp { .. }));
    assert!(matches!(log[3], NativeCall::DestroySettings { .. }));
    assert!(matches!(log[4], NativeCall::DestroyConfig { .. }));

    let monitor = app.main_monitor(&host).unwrap();
    assert_ne!(monitor.raw(), 0);
    let renderer = app.renderer(&host).unwrap();
    assert_ne!(renderer.raw(), 0);

    assert!(!app.is_running(&host));
    app.run(&mut host);
    assert!(app.is_running(&host));
    app.quit(&mut host);
    assert!(!app.is_running(&host));

    app.destroy(&mut host);
    assert!(matches!(
        host.log().last().unwrap(),
        NativeCall::DestroyApp { .. }
    ));
}

#[test]
fn app_creation_failure_surfaces_once() {
    let mut host = NativeHost::new();
    let settings = Settings::new(&mut host).unwrap();
    let config = Config::new(&mut host).unwrap();
    host.stage_create_failure();
    let r = App::new(&mut host, &settings, &config);
    assert!(matches!(r, Err(Error::CreationFailed(_))));
    settings.destroy(&mut host);
    config.destroy(&mut host);
}

#[test]
fn window_creation_failure_is_reported() {
    let mut host = NativeHost::new();
    let monitor = Monitor::from_raw(host.stage_monitor(800, 600)).unwrap();
    host.stage_create_failure();
    let r = Window::new(&mut host, &monitor, 1, 1, false, WindowFlags::empty());
    assert!(matches!(r, Err(Error::CreationFailed(_))));
}

#[test]
fn context_creation_failure_is_reported() {
    let mut host = NativeHost::new();
    host.stage_create_failure();
    let r = ulkit::javascript_core::GlobalContext::new(&mut host);
    assert!(matches!(r, Err(ulkit::javascript_core::Error::JSError(_))));
}
