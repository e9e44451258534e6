//! The callback registry: registration, replacement, clearing, and
//! trampoline delivery.

use std::sync::{Arc, Mutex};

use ulkit::app_core::{
    App, CloseCallback, Monitor, ResizeCallback, UpdateCallback, Window, WindowFlags,
};
use ulkit::app_core::window::WindowView;
use ulkit::callback::CallbackStorage;
use ulkit::native::{NativeCall, NativeHost};
use ulkit::ul::view::ChangeTitleCallback;
use ulkit::ul::{Config, Renderer, View, ViewConfig, ViewRef};

struct CountingResize {
    label: u32,
    hits: Arc<Mutex<Vec<(u32, u32, u32)>>>,
    drops: Arc<Mutex<u32>>,
}

impl ResizeCallback for CountingResize {
    fn on_resize(&self, _host: &mut NativeHost, _window: &WindowView, width: u32, height: u32) {
        self.hits.lock().unwrap().push((self.label, width, height));
    }
}

impl Drop for CountingResize {
    fn drop(&mut self) {
        *self.drops.lock().unwrap() += 1;
    }
}

struct NotingClose {
    closed: Arc<Mutex<u32>>,
}

impl CloseCallback for NotingClose {
    fn on_close(&self, _host: &mut NativeHost, _window: &WindowView) {
        *self.closed.lock().unwrap() += 1;
    }
}

struct CountingUpdate {
    ticks: Arc<Mutex<u32>>,
}

impl UpdateCallback for CountingUpdate {
    fn on_update(&self, _host: &mut NativeHost) {
        *self.ticks.lock().unwrap() += 1;
    }
}

struct TitleRecorder {
    titles: Arc<Mutex<Vec<Vec<u8>>>>,
}

impl ChangeTitleCallback for TitleRecorder {
    fn on_change_title(
        &self,
        host: &mut NativeHost,
        _view: &ViewRef,
        title: &ulkit::ul::String,
    ) {
        self.titles.lock().unwrap().push(title.to_bytes(host));
    }
}

fn window_fixture(host: &mut NativeHost) -> Window {
    let monitor = Monitor::from_raw(host.stage_monitor(800, 600)).unwrap();
    Window::new(host, &monitor, 100, 100, false, WindowFlags::empty()).unwrap()
}

#[test]
fn replacement_invokes_only_the_new_callback_and_frees_the_old_one_once() {
    let mut host = NativeHost::new();
    let mut window = window_fixture(&mut host);
    let hits = Arc::new(Mutex::new(Vec::new()));
    let drops_a = Arc::new(Mutex::new(0u32));
    let drops_b = Arc::new(Mutex::new(0u32));

    let a = CountingResize { label: 1, hits: hits.clone(), drops: drops_a.clone() };
    let b = CountingResize { label: 2, hits: hits.clone(), drops: drops_b.clone() };

    window.set_resize_callback(&mut host, Box::new(a)).unwrap();
    window.set_resize_callback(&mut host, Box::new(b)).unwrap();

    // replacing released the first callback's captured state exactly once
    assert_eq!(*drops_a.lock().unwrap(), 1);
    assert_eq!(*drops_b.lock().unwrap(), 0);

    // the trampoline now reaches only the replacement
    assert!(window.raise_resize(&mut host, 300, 200));
    assert_eq!(*hits.lock().unwrap(), vec![(2, 300, 200)]);

    window.destroy(&mut host);
}

#[test]
fn three_resize_events_arrive_in_order_with_exact_arguments() {
    let mut host = NativeHost::new();
    let mut window = window_fixture(&mut host);
    let hits = Arc::new(Mutex::new(Vec::new()));
    let drops = Arc::new(Mutex::new(0u32));
    let probe = CountingResize { label: 0, hits: hits.clone(), drops };

    window.set_resize_callback(&mut host, Box::new(probe)).unwrap();
    assert!(window.raise_resize(&mut host, 100, 200));
    assert!(window.raise_resize(&mut host, 150, 250));
    assert!(window.raise_resize(&mut host, 0, 0));

    assert_eq!(
        *hits.lock().unwrap(),
        vec![(0, 100, 200), (0, 150, 250), (0, 0, 0)]
    );
    window.destroy(&mut host);
}

#[test]
fn unregistered_callback_is_never_invoked() {
    let mut host = NativeHost::new();
    let window = window_fixture(&mut host);
    let before = host.log_len();
    assert!(!window.raise_resize(&mut host, 10, 10));
    assert!(!window.raise_close(&mut host));
    assert_eq!(host.log_len(), before);
    window.destroy(&mut host);
}

#[test]
fn cleared_callback_is_released_and_silent() {
    let mut host = NativeHost::new();
    let mut window = window_fixture(&mut host);
    let hits = Arc::new(Mutex::new(Vec::new()));
    let drops = Arc::new(Mutex::new(0u32));
    let probe = CountingResize { label: 3, hits: hits.clone(), drops: drops.clone() };

    window.set_resize_callback(&mut host, Box::new(probe)).unwrap();
    window.clear_resize_callback(&mut host).unwrap();
    assert_eq!(*drops.lock().unwrap(), 1);
    assert!(!window.raise_resize(&mut host, 5, 5));
    assert!(hits.lock().unwrap().is_empty());

    // the native layer saw the registration installed and then uninstalled
    let installs: Vec<bool> = host
        .log()
        .iter()
        .filter_map(|c| match c {
            NativeCall::WindowSetResizeCallback { installed, .. } => Some(*installed),
            _ => None,
        })
        .collect();
    assert_eq!(installs, vec![true, false]);
    window.destroy(&mut host);
}

#[test]
fn close_callback_fires_through_the_trampoline() {
    let mut host = NativeHost::new();
    let mut window = window_fixture(&mut host);
    let closed = Arc::new(Mutex::new(0u32));
    window
        .set_close_callback(&mut host, Box::new(NotingClose { closed: closed.clone() }))
        .unwrap();
    assert!(window.raise_close(&mut host));
    assert_eq!(*closed.lock().unwrap(), 1);
    window.destroy(&mut host);
}

#[test]
fn update_callback_ticks_per_raised_update() {
    let mut host = NativeHost::new();
    let mut app = App::with_defaults(&mut host).unwrap();
    let ticks = Arc::new(Mutex::new(0u32));
    app.set_update_callback(&mut host, Box::new(CountingUpdate { ticks: ticks.clone() }))
        .unwrap();
    app.raise_update(&mut host);
    app.raise_update(&mut host);
    assert_eq!(*ticks.lock().unwrap(), 2);
    app.clear_update_callback(&mut host).unwrap();
    assert!(!app.raise_update(&mut host));
    assert_eq!(*ticks.lock().unwrap(), 2);
    app.destroy(&mut host);
}

#[test]
fn view_title_callback_receives_the_borrowed_string() {
    let mut host = NativeHost::new();
    let config = Config::new(&mut host).unwrap();
    let renderer = Renderer::new(&mut host, &config).unwrap();
    let view_config = ViewConfig::new(&mut host).unwrap();
    let mut view = View::new(&mut host, &renderer, 100, 100, &view_config, None).unwrap();

    let titles = Arc::new(Mutex::new(Vec::new()));
    view.set_change_title_callback(&mut host, Box::new(TitleRecorder { titles: titles.clone() }));

    let title = ulkit::ul::String::from_str(&mut host, "My Page").unwrap();
    assert!(view.raise_change_title(&mut host, title.raw()));
    // a null title is refused by the trampoline's null check
    assert!(!view.raise_change_title(&mut host, 0));
    assert_eq!(*titles.lock().unwrap(), vec![b"My Page".to_vec()]);

    title.destroy(&mut host);
    view.destroy(&mut host);
    view_config.destroy(&mut host);
    renderer.destroy(&mut host);
    config.destroy(&mut host);
}

#[test]
fn storage_always_holds_the_latest_registration() {
    let mut slot: CallbackStorage<u32> = CallbackStorage::new();
    assert!(!slot.is_set());
    slot.set(1);
    slot.set(2);
    assert!(slot.is_set());
    assert_eq!(*slot.get().unwrap(), 2);
    slot.clear();
    assert!(slot.get().is_none());
}
