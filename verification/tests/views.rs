//! Views, overlays, input events, and the scoped script-context lock.

use ulkit::app_core::{Monitor, Overlay, Window, WindowFlags};
use ulkit::native::{NativeCall, NativeHost};
use ulkit::ul::raw::{ULKeyEventType, ULMouseButton, ULMouseEventType, ULScrollEventType};
use ulkit::ul::{
    Config, KeyEvent, MouseEvent, Platform, Renderer, ScrollEvent, View, ViewConfig,
};
use ulkit::ul::error::Error;

fn view_fixture(host: &mut NativeHost) -> (View, Renderer, ViewConfig, Config) {
    let config = Config::new(host).unwrap();
    let renderer = Renderer::new(host, &config).unwrap();
    let view_config = ViewConfig::new(host).unwrap();
    let view = View::new(host, &renderer, 64, 32, &view_config, None).unwrap();
    (view, renderer, view_config, config)
}

#[test]
fn view_comes_with_surface_and_script_context() {
    let mut host = NativeHost::new();
    let (view, renderer, view_config, config) = view_fixture(&mut host);
    assert_eq!(view.width(&host), 64);
    assert_eq!(view.height(&host), 32);
    let surface = view.surface(&host).unwrap();
    assert_eq!(surface.width(&host), 64);
    assert_eq!(surface.row_bytes(&host), 256);

    let guard = view.lock_js_context(&mut host).unwrap();
    assert_ne!(guard.raw(), 0);
    // the lock is not reentrant
    assert!(matches!(
        view.lock_js_context(&mut host),
        Err(Error::InvalidOperation(_))
    ));
    guard.unlock(&mut host);
    // unlocked again: a fresh lock succeeds
    let guard = view.lock_js_context(&mut host).unwrap();
    guard.unlock(&mut host);

    view.destroy(&mut host);
    view_config.destroy(&mut host);
    renderer.destroy(&mut host);
    config.destroy(&mut host);
}

#[test]
fn view_script_evaluation_returns_the_staged_outcome() {
    let mut host = NativeHost::new();
    let (view, renderer, view_config, config) = view_fixture(&mut host);

    host.stage_view_eval(true, b"42");
    let result = view.evaluate_script(&mut host, "6 * 7").unwrap();
    assert_eq!(result.to_bytes(&host), b"42".to_vec());
    assert!(!result.is_owned());

    host.stage_view_eval(false, b"ReferenceError: nope");
    match view.evaluate_script(&mut host, "nope()") {
        Err(Error::JavaScriptError(text)) => assert_eq!(text, b"ReferenceError: nope".to_vec()),
        other => panic!("expected a script error, got {:?}", other.is_ok()),
    }

    assert!(matches!(
        view.evaluate_script(&mut host, "bad\0"),
        Err(Error::InvalidArgument(_))
    ));

    view.destroy(&mut host);
    view_config.destroy(&mut host);
    renderer.destroy(&mut host);
    config.destroy(&mut host);
}

#[test]
fn view_navigation_and_loads_are_observed() {
    let mut host = NativeHost::new();
    let (view, renderer, view_config, config) = view_fixture(&mut host);

    view.load_url(&mut host, "https://example.test/").unwrap();
    assert_eq!(view.url(&host), b"https://example.test/".to_vec());
    view.load_html(&mut host, "<p>hi</p>").unwrap();
    assert!(view.load_url(&mut host, "https://bad\0url/").is_err());

    view.go_back(&mut host);
    view.go_forward(&mut host);
    view.go_to_history_offset(&mut host, -2);
    view.reload(&mut host);
    view.stop(&mut host);
    view.focus(&mut host);
    assert!(view.has_focus(&host));
    view.unfocus(&mut host);
    assert!(!view.has_focus(&host));
    view.set_needs_paint(&mut host, true);
    assert!(view.needs_paint(&host));
    view.resize(&mut host, 10, 10);
    assert_eq!(view.width(&host), 10);

    assert!(matches!(
        host.log().last().unwrap(),
        NativeCall::ViewResize { width: 10, height: 10, .. }
    ));

    view.destroy(&mut host);
    view_config.destroy(&mut host);
    renderer.destroy(&mut host);
    config.destroy(&mut host);
}

#[test]
fn input_events_carry_their_arguments_into_the_view() {
    let mut host = NativeHost::new();
    let (view, renderer, view_config, config) = view_fixture(&mut host);

    let key = KeyEvent::new(
        &mut host,
        ULKeyEventType::kKeyEventType_KeyDown,
        0,
        65,
        30,
        "a",
        "a",
        false,
        false,
        false,
    )
    .unwrap();
    view.fire_key_event(&mut host, &key);
    assert_eq!(
        *host.log().last().unwrap(),
        NativeCall::ViewFireKeyEvent { addr: view.raw(), event: key.raw() }
    );

    let mouse = MouseEvent::new(
        &mut host,
        ULMouseEventType::kMouseEventType_MouseDown,
        10,
        20,
        ULMouseButton::kMouseButton_Left,
    )
    .unwrap();
    view.fire_mouse_event(&mut host, &mouse);

    let scroll = ScrollEvent::new(
        &mut host,
        ULScrollEventType::kScrollEventType_ScrollByPixel,
        0,
        -120,
    )
    .unwrap();
    view.fire_scroll_event(&mut host, &scroll);

    assert!(matches!(
        KeyEvent::new(
            &mut host,
            ULKeyEventType::kKeyEventType_Char,
            0,
            0,
            0,
            "a\0b",
            "",
            false,
            false,
            false,
        ),
        Err(Error::InvalidArgument(_))
    ));

    key.destroy(&mut host);
    mouse.destroy(&mut host);
    scroll.destroy(&mut host);
    view.destroy(&mut host);
    view_config.destroy(&mut host);
    renderer.destroy(&mut host);
    config.destroy(&mut host);
}

#[test]
fn overlay_wraps_a_view_of_its_own() {
    let mut host = NativeHost::new();
    let monitor = Monitor::from_raw(host.stage_monitor(800, 600)).unwrap();
    let window = Window::new(&mut host, &monitor, 400, 300, false, WindowFlags::empty()).unwrap();
    let overlay = Overlay::new(&mut host, &window, 200, 100, 5, 6).unwrap();

    assert_eq!(overlay.width(&host), 200);
    assert_eq!(overlay.height(&host), 100);
    assert_eq!(overlay.x(&host), 5);
    assert_eq!(overlay.y(&host), 6);
    assert!(!overlay.is_hidden(&host));

    let inner = overlay.view(&host).unwrap();
    assert_ne!(inner.raw(), 0);

    overlay.move_to(&mut host, 7, 8);
    assert_eq!(overlay.x(&host), 7);
    overlay.resize(&mut host, 50, 40);
    assert_eq!(overlay.width(&host), 50);
    overlay.set_hidden(&mut host, true);
    assert!(overlay.is_hidden(&host));
    overlay.show(&mut host);
    assert!(!overlay.is_hidden(&host));
    overlay.focus(&mut host);
    assert!(overlay.has_focus(&host));
    overlay.unfocus(&mut host);
    assert!(!overlay.has_focus(&host));

    overlay.destroy(&mut host);
    window.destroy(&mut host);
}

#[test]
fn renderer_commands_and_platform_setup_are_logged() {
    let mut host = NativeHost::new();
    Platform::enable_platform_font_loader(&mut host);
    Platform::enable_platform_file_system(&mut host, "./assets/").unwrap();
    Platform::enable_default_logger(&mut host, "ul.log").unwrap();
    assert!(Platform::enable_default_logger(&mut host, "u\0l.log").is_err());

    let config = Config::new(&mut host).unwrap();
    let renderer = Renderer::new(&mut host, &config).unwrap();
    renderer.update(&mut host);
    renderer.render(&mut host);
    renderer.purge_memory(&mut host);
    renderer.log_memory_usage(&mut host);
    renderer.refresh_display(&mut host, 3);

    let tail: Vec<&NativeCall> = host.log().iter().rev().take(5).collect();
    assert!(matches!(tail[0], NativeCall::RendererRefreshDisplay { display_id: 3, .. }));
    assert!(matches!(tail[1], NativeCall::RendererLogMemoryUsage { .. }));
    assert!(matches!(tail[2], NativeCall::RendererPurgeMemory { .. }));
    assert!(matches!(tail[3], NativeCall::RendererRender { .. }));
    assert!(matches!(tail[4], NativeCall::RendererUpdate { .. }));

    renderer.destroy(&mut host);
    config.destroy(&mut host);
}

#[test]
fn view_config_setters_reach_the_model() {
    let mut host = NativeHost::new();
    let mut vc = ViewConfig::new(&mut host).unwrap();
    vc.set_display_id(&mut host, 2);
    vc.set_is_accelerated(&mut host, true);
    vc.set_is_transparent(&mut host, true);
    vc.set_initial_focus(&mut host, false);
    vc.set_enable_images(&mut host, false);
    vc.set_enable_javascript(&mut host, false);
    vc.set_user_agent(&mut host, "ulkit-test").unwrap();
    assert!(vc.set_user_agent(&mut host, "ul\0kit").is_err());
    assert!(matches!(
        host.log().last().unwrap(),
        NativeCall::ViewConfigSetUserAgent { .. }
    ));
    vc.destroy(&mut host);

    let mut cfg = Config::new(&mut host).unwrap();
    cfg.set_cache_path(&mut host, "/tmp/cache").unwrap();
    cfg.set_user_stylesheet(&mut host, "body{}").unwrap();
    assert!(cfg.set_cache_path(&mut host, "/tmp/\0cache").is_err());
    cfg.destroy(&mut host);
}
