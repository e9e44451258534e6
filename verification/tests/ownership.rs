//! Ownership rules: owning handles destroy exactly once, borrowed views
//! never do, and reference-counted resources die with their last reference.

use ulkit::app_core::{Monitor, Window, WindowFlags, WindowView};
use ulkit::handle::Handle;
use ulkit::javascript_core::ContextGroup;
use ulkit::native::{NativeCall, NativeHost};
use ulkit::ul::{Config, Renderer};

fn destroy_count(host: &NativeHost, addr: u64) -> usize {
    host.log()
        .iter()
        .filter(|c| matches!(c, NativeCall::DestroyWindow { addr: a } if *a == addr))
        .count()
}

#[test]
fn borrowed_views_never_destroy() {
    let mut host = NativeHost::new();
    let monitor = Monitor::from_raw(host.stage_monitor(800, 600)).unwrap();
    let window = Window::new(&mut host, &monitor, 100, 100, false, WindowFlags::empty()).unwrap();
    let addr = window.raw();

    // many clones of a non-owning view, all dropped: zero destroy calls
    let first = WindowView::from_raw(addr).unwrap();
    let mut views = Vec::new();
    for _ in 0..8 {
        views.push(first.clone());
    }
    views.push(first);
    for v in views {
        v.release(&mut host);
    }
    assert_eq!(destroy_count(&host, addr), 0);

    // only the single owning handle's teardown destroys, exactly once
    window.destroy(&mut host);
    assert_eq!(destroy_count(&host, addr), 1);
}

#[test]
fn handles_reject_the_null_address() {
    assert!(Handle::owning(0).is_none());
    assert!(Handle::borrowed(0).is_none());
    let h = Handle::owning(42).unwrap();
    assert_eq!(h.raw(), 42);
    assert!(h.owns());
    let b = Handle::borrowed(42).unwrap();
    assert!(!b.owns());
}

#[test]
fn borrowed_renderer_does_not_destroy() {
    let mut host = NativeHost::new();
    let config = Config::new(&mut host).unwrap();
    let owned = Renderer::new(&mut host, &config).unwrap();
    let addr = owned.raw();

    let borrowed = Renderer::from_raw(addr, false).unwrap();
    let before = host.log_len();
    borrowed.destroy(&mut host);
    assert_eq!(host.log_len(), before);

    owned.destroy(&mut host);
    assert!(matches!(
        host.log().last().unwrap(),
        NativeCall::DestroyRenderer { .. }
    ));
    config.destroy(&mut host);
}

#[test]
fn default_session_is_borrowed_and_survives_release() {
    let mut host = NativeHost::new();
    let config = Config::new(&mut host).unwrap();
    let renderer = Renderer::new(&mut host, &config).unwrap();
    let session = renderer.default_session(&host).unwrap();
    assert!(!session.is_persistent(&host));
    let before = host.log_len();
    session.destroy(&mut host);
    assert_eq!(host.log_len(), before);
    renderer.destroy(&mut host);
    config.destroy(&mut host);
}

#[test]
fn created_session_is_owned_and_destroyed_once() {
    let mut host = NativeHost::new();
    let config = Config::new(&mut host).unwrap();
    let renderer = Renderer::new(&mut host, &config).unwrap();
    let session = renderer.create_session(&mut host, true, "saved").unwrap();
    assert!(session.is_persistent(&host));
    assert_eq!(session.name(&host), b"saved".to_vec());
    let addr = session.raw();
    session.destroy(&mut host);
    let destroys = host
        .log()
        .iter()
        .filter(|c| matches!(c, NativeCall::DestroySession { addr: a } if *a == addr))
        .count();
    assert_eq!(destroys, 1);
    renderer.destroy(&mut host);
    config.destroy(&mut host);
}

#[test]
fn context_group_dies_with_its_last_reference() {
    let mut host = NativeHost::new();
    let group = ContextGroup::new(&mut host).unwrap();
    let addr = group.as_raw();
    let second = group.retain(&mut host);
    let third = second.retain(&mut host);

    // releasing two of the three references keeps the group alive
    third.release(&mut host);
    second.release(&mut host);
    let create_ctx = group.create_global_context(&mut host);
    assert!(create_ctx.is_ok());

    // the last release tears it down
    group.release(&mut host);
    let releases = host
        .log()
        .iter()
        .filter(|c| matches!(c, NativeCall::JsContextGroupRelease { addr: a } if *a == addr))
        .count();
    assert_eq!(releases, 3);
    create_ctx.unwrap().release(&mut host);
}
