//! Model of the native layer.
//!
//! The wrapped engines live behind a C boundary of opaque pointers. This
//! module gives that boundary an explicit, verifiable form: a [`NativeHost`]
//! owns a table of live native objects keyed by nonzero addresses, and a log
//! of every call made across the boundary. Wrapper types elsewhere in the
//! crate state their contracts over this model, which also serves the test
//! suite as the observing native layer.

use vstd::prelude::*;
use vstd::slice::slice_to_vec;
use vstd::string::StringSliceAdditionalSpecFns;

verus! {

/// Spec-level view of one recorded native call.
pub enum CallView {
    CreateSettings { addr: u64 },
    DestroySettings { addr: u64 },
    SettingsSetDeveloperName { addr: u64, name: Seq<u8> },
    SettingsSetAppName { addr: u64, name: Seq<u8> },
    SettingsSetFileSystemPath { addr: u64, path: Seq<u8> },
    SettingsSetLoadShadersFromFileSystem { addr: u64, enabled: bool },
    SettingsSetForceCPURenderer { addr: u64, force_cpu: bool },
    CreateWindow { addr: u64, monitor: u64, width: u32, height: u32, fullscreen: bool, flags: u32 },
    DestroyWindow { addr: u64 },
    WindowSetCloseCallback { addr: u64, installed: bool },
    WindowSetResizeCallback { addr: u64, installed: bool },
    WindowSetTitle { addr: u64, title: Seq<u8> },
    WindowMoveTo { addr: u64, x: i32, y: i32 },
    WindowMoveToCenter { addr: u64 },
    WindowShow { addr: u64 },
    WindowHide { addr: u64 },
    WindowClose { addr: u64 },
    CreateConfig { addr: u64 },
    DestroyConfig { addr: u64 },
    ConfigSetCachePath { addr: u64, path: Seq<u8> },
    ConfigSetUserStylesheet { addr: u64, css: Seq<u8> },
    CreateRenderer { addr: u64, config: u64 },
    DestroyRenderer { addr: u64 },
    RendererUpdate { addr: u64 },
    RendererRender { addr: u64 },
    RendererPurgeMemory { addr: u64 },
    RendererLogMemoryUsage { addr: u64 },
    RendererRefreshDisplay { addr: u64, display_id: u32 },
    CreateSession { addr: u64, renderer: u64, is_persistent: bool, name: Seq<u8> },
    DestroySession { addr: u64 },
    CreateApp { addr: u64, settings: u64, config: u64 },
    DestroyApp { addr: u64 },
    AppSetUpdateCallback { addr: u64, installed: bool },
    AppRun { addr: u64 },
    AppQuit { addr: u64 },
    CreateString { addr: u64 },
    DestroyString { addr: u64 },
    StringAssign { addr: u64, bytes: Seq<u8> },
    CreateBuffer { addr: u64 },
    DestroyBuffer { addr: u64 },
    SurfaceLockPixels { addr: u64, ok: bool },
    SurfaceUnlockPixels { addr: u64 },
    SurfaceResize { addr: u64, width: u32, height: u32 },
    SurfaceSetDirtyBounds { addr: u64, left: i32, top: i32, right: i32, bottom: i32 },
    SurfaceClearDirtyBounds { addr: u64 },
    CreateBitmap { addr: u64, width: u32, height: u32, format: u32 },
    DestroyBitmap { addr: u64 },
    BitmapLockPixels { addr: u64, ok: bool },
    BitmapUnlockPixels { addr: u64 },
    BitmapErase { addr: u64 },
    BitmapSwapRedBlue { addr: u64 },
    CreateView { addr: u64, renderer: u64, width: u32, height: u32, view_config: u64, session: u64 },
    DestroyView { addr: u64 },
    ViewLoadHtml { addr: u64, html: Seq<u8> },
    ViewLoadUrl { addr: u64, url: Seq<u8> },
    ViewResize { addr: u64, width: u32, height: u32 },
    ViewLockJSContext { addr: u64, ok: bool },
    ViewUnlockJSContext { addr: u64 },
    ViewEvaluateScript { addr: u64, script: Seq<u8> },
    ViewSetCallback { addr: u64, kind: u32, installed: bool },
    ViewFocus { addr: u64 },
    ViewUnfocus { addr: u64 },
    ViewFireKeyEvent { addr: u64, event: u64 },
    ViewFireMouseEvent { addr: u64, event: u64 },
    ViewFireScrollEvent { addr: u64, event: u64 },
    ViewSetNeedsPaint { addr: u64, needs_paint: bool },
    ViewGoBack { addr: u64 },
    ViewGoForward { addr: u64 },
    ViewGoToHistoryOffset { addr: u64, offset: i32 },
    ViewReload { addr: u64 },
    ViewStop { addr: u64 },
    CreateOverlay { addr: u64, window: u64, width: u32, height: u32, x: i32, y: i32 },
    DestroyOverlay { addr: u64 },
    OverlayMoveTo { addr: u64, x: i32, y: i32 },
    OverlayResize { addr: u64, width: u32, height: u32 },
    OverlayShow { addr: u64 },
    OverlayHide { addr: u64 },
    OverlayFocus { addr: u64 },
    OverlayUnfocus { addr: u64 },
    CreateKeyEvent { addr: u64 },
    DestroyKeyEvent { addr: u64 },
    CreateMouseEvent { addr: u64 },
    DestroyMouseEvent { addr: u64 },
    CreateScrollEvent { addr: u64 },
    DestroyScrollEvent { addr: u64 },
    CreateGamepadEvent { addr: u64 },
    DestroyGamepadEvent { addr: u64 },
    CreateGamepadAxisEvent { addr: u64 },
    DestroyGamepadAxisEvent { addr: u64 },
    CreateGamepadButtonEvent { addr: u64 },
    DestroyGamepadButtonEvent { addr: u64 },
    RendererFireGamepadEvent { addr: u64, event: u64 },
    RendererFireGamepadAxisEvent { addr: u64, event: u64 },
    RendererFireGamepadButtonEvent { addr: u64, event: u64 },
    RendererSetGamepadDetails { addr: u64, index: u32, id: Seq<u8>, axis_count: u32, button_count: u32 },
    EnablePlatformFontLoader,
    EnablePlatformFileSystem { base_dir: Seq<u8> },
    EnableDefaultLogger { log_path: Seq<u8> },
    ImageSourceCreate { addr: u64, bitmap: u64 },
    ImageSourceDestroy { addr: u64 },
    ImageSourceInvalidate { addr: u64 },
    JsContextGroupCreate { addr: u64 },
    JsContextGroupRetain { addr: u64 },
    JsContextGroupRelease { addr: u64 },
    JsGlobalContextCreate { addr: u64, group: u64 },
    JsGlobalContextRetain { addr: u64 },
    JsGlobalContextRelease { addr: u64 },
    JsGlobalContextSetName { addr: u64, name: Seq<u8> },
    JsGlobalContextSetInspectable { addr: u64, inspectable: bool },
    JsGarbageCollect { addr: u64 },
    JsEvaluateScript { addr: u64, script: Seq<u8> },
    JsCheckScriptSyntax { addr: u64, script: Seq<u8> },
    JsStringCreate { addr: u64 },
    JsStringRetain { addr: u64 },
    JsStringRelease { addr: u64 },
    JsValueProtect { addr: u64 },
    JsValueUnprotect { addr: u64 },
    JsObjectSetProperty { addr: u64, private: bool, name: Seq<u8>, value: u64 },
    JsCallFunction { addr: u64, this: u64, args: Seq<u64> },
    JsCallConstructor { addr: u64, args: Seq<u64> },
    JsClassCreate { addr: u64, name: Seq<u8> },
    JsClassRetain { addr: u64 },
    JsClassRelease { addr: u64 },
    CreateViewConfig { addr: u64 },
    DestroyViewConfig { addr: u64 },
    ViewConfigSetDisplayId { addr: u64, display_id: u32 },
    ViewConfigSetIsAccelerated { addr: u64, is_accelerated: bool },
    ViewConfigSetIsTransparent { addr: u64, is_transparent: bool },
    ViewConfigSetInitialFocus { addr: u64, has_focus: bool },
    ViewConfigSetEnableImages { addr: u64, enabled: bool },
    ViewConfigSetEnableJavaScript { addr: u64, enabled: bool },
    ViewConfigSetUserAgent { addr: u64, agent: Seq<u8> },
}

/// One recorded call into the native layer, as the tests observe it.
#[derive(Debug, Clone, PartialEq, Eq)]
pub enum NativeCall {
    CreateSettings { addr: u64 },
    DestroySettings { addr: u64 },
    SettingsSetDeveloperName { addr: u64, name: Vec<u8> },
    SettingsSetAppName { addr: u64, name: Vec<u8> },
    SettingsSetFileSystemPath { addr: u64, path: Vec<u8> },
    SettingsSetLoadShadersFromFileSystem { addr: u64, enabled: bool },
    SettingsSetForceCPURenderer { addr: u64, force_cpu: bool },
    CreateWindow { addr: u64, monitor: u64, width: u32, height: u32, fullscreen: bool, flags: u32 },
    DestroyWindow { addr: u64 },
    WindowSetCloseCallback { addr: u64, installed: bool },
    WindowSetResizeCallback { addr: u64, installed: bool },
    WindowSetTitle { addr: u64, title: Vec<u8> },
    WindowMoveTo { addr: u64, x: i32, y: i32 },
    WindowMoveToCenter { addr: u64 },
    WindowShow { addr: u64 },
    WindowHide { addr: u64 },
    WindowClose { addr: u64 },
    CreateConfig { addr: u64 },
    DestroyConfig { addr: u64 },
    ConfigSetCachePath { addr: u64, path: Vec<u8> },
    ConfigSetUserStylesheet { addr: u64, css: Vec<u8> },
    CreateRenderer { addr: u64, config: u64 },
    DestroyRenderer { addr: u64 },
    RendererUpdate { addr: u64 },
    RendererRender { addr: u64 },
    RendererPurgeMemory { addr: u64 },
    RendererLogMemoryUsage { addr: u64 },
    RendererRefreshDisplay { addr: u64, display_id: u32 },
    CreateSession { addr: u64, renderer: u64, is_persistent: bool, name: Vec<u8> },
    DestroySession { addr: u64 },
    CreateApp { addr: u64, settings: u64, config: u64 },
    DestroyApp { addr: u64 },
    AppSetUpdateCallback { addr: u64, installed: bool },
    AppRun { addr: u64 },
    AppQuit { addr: u64 },
    CreateString { addr: u64 },
    DestroyString { addr: u64 },
    StringAssign { addr: u64, bytes: Vec<u8> },
    CreateBuffer { addr: u64 },
    DestroyBuffer { addr: u64 },
    SurfaceLockPixels { addr: u64, ok: bool },
    SurfaceUnlockPixels { addr: u64 },
    SurfaceResize { addr: u64, width: u32, height: u32 },
    SurfaceSetDirtyBounds { addr: u64, left: i32, top: i32, right: i32, bottom: i32 },
    SurfaceClearDirtyBounds { addr: u64 },
    CreateBitmap { addr: u64, width: u32, height: u32, format: u32 },
    DestroyBitmap { addr: u64 },
    BitmapLockPixels { addr: u64, ok: bool },
    BitmapUnlockPixels { addr: u64 },
    BitmapErase { addr: u64 },
    BitmapSwapRedBlue { addr: u64 },
    CreateView { addr: u64, renderer: u64, width: u32, height: u32, view_config: u64, session: u64 },
    DestroyView { addr: u64 },
    ViewLoadHtml { addr: u64, html: Vec<u8> },
    ViewLoadUrl { addr: u64, url: Vec<u8> },
    ViewResize { addr: u64, width: u32, height: u32 },
    ViewLockJSContext { addr: u64, ok: bool },
    ViewUnlockJSContext { addr: u64 },
    ViewEvaluateScript { addr: u64, script: Vec<u8> },
    ViewSetCallback { addr: u64, kind: u32, installed: bool },
    ViewFocus { addr: u64 },
    ViewUnfocus { addr: u64 },
    ViewFireKeyEvent { addr: u64, event: u64 },
    ViewFireMouseEvent { addr: u64, event: u64 },
    ViewFireScrollEvent { addr: u64, event: u64 },
    ViewSetNeedsPaint { addr: u64, needs_paint: bool },
    ViewGoBack { addr: u64 },
    ViewGoForward { addr: u64 },
    ViewGoToHistoryOffset { addr: u64, offset: i32 },
    ViewReload { addr: u64 },
    ViewStop { addr: u64 },
    CreateOverlay { addr: u64, window: u64, width: u32, height: u32, x: i32, y: i32 },
    DestroyOverlay { addr: u64 },
    OverlayMoveTo { addr: u64, x: i32, y: i32 },
    OverlayResize { addr: u64, width: u32, height: u32 },
    OverlayShow { addr: u64 },
    OverlayHide { addr: u64 },
    OverlayFocus { addr: u64 },
    OverlayUnfocus { addr: u64 },
    CreateKeyEvent { addr: u64 },
    DestroyKeyEvent { addr: u64 },
    CreateMouseEvent { addr: u64 },
    DestroyMouseEvent { addr: u64 },
    CreateScrollEvent { addr: u64 },
    DestroyScrollEvent { addr: u64 },
    CreateGamepadEvent { addr: u64 },
    DestroyGamepadEvent { addr: u64 },
    CreateGamepadAxisEvent { addr: u64 },
    DestroyGamepadAxisEvent { addr: u64 },
    CreateGamepadButtonEvent { addr: u64 },
    DestroyGamepadButtonEvent { addr: u64 },
    RendererFireGamepadEvent { addr: u64, event: u64 },
    RendererFireGamepadAxisEvent { addr: u64, event: u64 },
    RendererFireGamepadButtonEvent { addr: u64, event: u64 },
    RendererSetGamepadDetails { addr: u64, index: u32, id: Vec<u8>, axis_count: u32, button_count: u32 },
    EnablePlatformFontLoader,
    EnablePlatformFileSystem { base_dir: Vec<u8> },
    EnableDefaultLogger { log_path: Vec<u8> },
    ImageSourceCreate { addr: u64, bitmap: u64 },
    ImageSourceDestroy { addr: u64 },
    ImageSourceInvalidate { addr: u64 },
    JsContextGroupCreate { addr: u64 },
    JsContextGroupRetain { addr: u64 },
    JsContextGroupRelease { addr: u64 },
    JsGlobalContextCreate { addr: u64, group: u64 },
    JsGlobalContextRetain { addr: u64 },
    JsGlobalContextRelease { addr: u64 },
    JsGlobalContextSetName { addr: u64, name: Vec<u8> },
    JsGlobalContextSetInspectable { addr: u64, inspectable: bool },
    JsGarbageCollect { addr: u64 },
    JsEvaluateScript { addr: u64, script: Vec<u8> },
    JsCheckScriptSyntax { addr: u64, script: Vec<u8> },
    JsStringCreate { addr: u64 },
    JsStringRetain { addr: u64 },
    JsStringRelease { addr: u64 },
    JsValueProtect { addr: u64 },
    JsValueUnprotect { addr: u64 },
    JsObjectSetProperty { addr: u64, private: bool, name: Vec<u8>, value: u64 },
    JsCallFunction { addr: u64, this: u64, args: Vec<u64> },
    JsCallConstructor { addr: u64, args: Vec<u64> },
    JsClassCreate { addr: u64, name: Vec<u8> },
    JsClassRetain { addr: u64 },
    JsClassRelease { addr: u64 },
    CreateViewConfig { addr: u64 },
    DestroyViewConfig { addr: u64 },
    ViewConfigSetDisplayId { addr: u64, display_id: u32 },
    ViewConfigSetIsAccelerated { addr: u64, is_accelerated: bool },
    ViewConfigSetIsTransparent { addr: u64, is_transparent: bool },
    ViewConfigSetInitialFocus { addr: u64, has_focus: bool },
    ViewConfigSetEnableImages { addr: u64, enabled: bool },
    ViewConfigSetEnableJavaScript { addr: u64, enabled: bool },
    ViewConfigSetUserAgent { addr: u64, agent: Vec<u8> },
}

impl View for NativeCall {
    type V = CallView;

    open spec fn view(&self) -> CallView {
        match self {
            NativeCall::CreateSettings { addr } => CallView::CreateSettings { addr: *addr },
            NativeCall::DestroySettings { addr } => CallView::DestroySettings { addr: *addr },
            NativeCall::SettingsSetDeveloperName { addr, name } => CallView::SettingsSetDeveloperName { addr: *addr, name: name@ },
            NativeCall::SettingsSetAppName { addr, name } => CallView::SettingsSetAppName { addr: *addr, name: name@ },
            NativeCall::SettingsSetFileSystemPath { addr, path } => CallView::SettingsSetFileSystemPath { addr: *addr, path: path@ },
            NativeCall::SettingsSetLoadShadersFromFileSystem { addr, enabled } => CallView::SettingsSetLoadShadersFromFileSystem { addr: *addr, enabled: *enabled },
            NativeCall::SettingsSetForceCPURenderer { addr, force_cpu } => CallView::SettingsSetForceCPURenderer { addr: *addr, force_cpu: *force_cpu },
            NativeCall::CreateWindow { addr, monitor, width, height, fullscreen, flags } => CallView::CreateWindow {
                addr: *addr, monitor: *monitor, width: *width, height: *height, fullscreen: *fullscreen, flags: *flags,
            },
            NativeCall::DestroyWindow { addr } => CallView::DestroyWindow { addr: *addr },
            NativeCall::WindowSetCloseCallback { addr, installed } => CallView::WindowSetCloseCallback { addr: *addr, installed: *installed },
            NativeCall::WindowSetResizeCallback { addr, installed } => CallView::WindowSetResizeCallback { addr: *addr, installed: *installed },
            NativeCall::WindowSetTitle { addr, title } => CallView::WindowSetTitle { addr: *addr, title: title@ },
            NativeCall::WindowMoveTo { addr, x, y } => CallView::WindowMoveTo { addr: *addr, x: *x, y: *y },
            NativeCall::WindowMoveToCenter { addr } => CallView::WindowMoveToCenter { addr: *addr },
            NativeCall::WindowShow { addr } => CallView::WindowShow { addr: *addr },
            NativeCall::WindowHide { addr } => CallView::WindowHide { addr: *addr },
            NativeCall::WindowClose { addr } => CallView::WindowClose { addr: *addr },
            NativeCall::CreateConfig { addr } => CallView::CreateConfig { addr: *addr },
            NativeCall::DestroyConfig { addr } => CallView::DestroyConfig { addr: *addr },
            NativeCall::ConfigSetCachePath { addr, path } => CallView::ConfigSetCachePath { addr: *addr, path: path@ },
            NativeCall::ConfigSetUserStylesheet { addr, css } => CallView::ConfigSetUserStylesheet { addr: *addr, css: css@ },
            NativeCall::CreateRenderer { addr, config } => CallView::CreateRenderer { addr: *addr, config: *config },
            NativeCall::DestroyRenderer { addr } => CallView::DestroyRenderer { addr: *addr },
            NativeCall::RendererUpdate { addr } => CallView::RendererUpdate { addr: *addr },
            NativeCall::RendererRender { addr } => CallView::RendererRender { addr: *addr },
            NativeCall::RendererPurgeMemory { addr } => CallView::RendererPurgeMemory { addr: *addr },
            NativeCall::RendererLogMemoryUsage { addr } => CallView::RendererLogMemoryUsage { addr: *addr },
            NativeCall::RendererRefreshDisplay { addr, display_id } => CallView::RendererRefreshDisplay { addr: *addr, display_id: *display_id },
            NativeCall::CreateSession { addr, renderer, is_persistent, name } => CallView::CreateSession { addr: *addr, renderer: *renderer, is_persistent: *is_persistent, name: name@ },
            NativeCall::DestroySession { addr } => CallView::DestroySession { addr: *addr },
            NativeCall::CreateApp { addr, settings, config } => CallView::CreateApp { addr: *addr, settings: *settings, config: *config },
            NativeCall::DestroyApp { addr } => CallView::DestroyApp { addr: *addr },
            NativeCall::AppSetUpdateCallback { addr, installed } => CallView::AppSetUpdateCallback { addr: *addr, installed: *installed },
            NativeCall::AppRun { addr } => CallView::AppRun { addr: *addr },
            NativeCall::AppQuit { addr } => CallView::AppQuit { addr: *addr },
            NativeCall::CreateString { addr } => CallView::CreateString { addr: *addr },
            NativeCall::DestroyString { addr } => CallView::DestroyString { addr: *addr },
            NativeCall::StringAssign { addr, bytes } => CallView::StringAssign { addr: *addr, bytes: bytes@ },
            NativeCall::CreateBuffer { addr } => CallView::CreateBuffer { addr: *addr },
            NativeCall::DestroyBuffer { addr } => CallView::DestroyBuffer { addr: *addr },
            NativeCall::SurfaceLockPixels { addr, ok } => CallView::SurfaceLockPixels { addr: *addr, ok: *ok },
            NativeCall::SurfaceUnlockPixels { addr } => CallView::SurfaceUnlockPixels { addr: *addr },
            NativeCall::SurfaceResize { addr, width, height } => CallView::SurfaceResize { addr: *addr, width: *width, height: *height },
            NativeCall::SurfaceSetDirtyBounds { addr, left, top, right, bottom } => CallView::SurfaceSetDirtyBounds {
                addr: *addr, left: *left, top: *top, right: *right, bottom: *bottom,
            },
            NativeCall::SurfaceClearDirtyBounds { addr } => CallView::SurfaceClearDirtyBounds { addr: *addr },
            NativeCall::CreateBitmap { addr, width, height, format } => CallView::CreateBitmap { addr: *addr, width: *width, height: *height, format: *format },
            NativeCall::DestroyBitmap { addr } => CallView::DestroyBitmap { addr: *addr },
            NativeCall::BitmapLockPixels { addr, ok } => CallView::BitmapLockPixels { addr: *addr, ok: *ok },
            NativeCall::BitmapUnlockPixels { addr } => CallView::BitmapUnlockPixels { addr: *addr },
            NativeCall::BitmapErase { addr } => CallView::BitmapErase { addr: *addr },
            NativeCall::BitmapSwapRedBlue { addr } => CallView::BitmapSwapRedBlue { addr: *addr },
            NativeCall::CreateView { addr, renderer, width, height, view_config, session } => CallView::CreateView {
                addr: *addr, renderer: *renderer, width: *width, height: *height, view_config: *view_config, session: *session,
            },
            NativeCall::DestroyView { addr } => CallView::DestroyView { addr: *addr },
            NativeCall::ViewLoadHtml { addr, html } => CallView::ViewLoadHtml { addr: *addr, html: html@ },
            NativeCall::ViewLoadUrl { addr, url } => CallView::ViewLoadUrl { addr: *addr, url: url@ },
            NativeCall::ViewResize { addr, width, height } => CallView::ViewResize { addr: *addr, width: *width, height: *height },
            NativeCall::ViewLockJSContext { addr, ok } => CallView::ViewLockJSContext { addr: *addr, ok: *ok },
            NativeCall::ViewUnlockJSContext { addr } => CallView::ViewUnlockJSContext { addr: *addr },
            NativeCall::ViewEvaluateScript { addr, script } => CallView::ViewEvaluateScript { addr: *addr, script: script@ },
            NativeCall::ViewSetCallback { addr, kind, installed } => CallView::ViewSetCallback { addr: *addr, kind: *kind, installed: *installed },
            NativeCall::ViewFocus { addr } => CallView::ViewFocus { addr: *addr },
            NativeCall::ViewUnfocus { addr } => CallView::ViewUnfocus { addr: *addr },
            NativeCall::ViewFireKeyEvent { addr, event } => CallView::ViewFireKeyEvent { addr: *addr, event: *event },
            NativeCall::ViewFireMouseEvent { addr, event } => CallView::ViewFireMouseEvent { addr: *addr, event: *event },
            NativeCall::ViewFireScrollEvent { addr, event } => CallView::ViewFireScrollEvent { addr: *addr, event: *event },
            NativeCall::ViewSetNeedsPaint { addr, needs_paint } => CallView::ViewSetNeedsPaint { addr: *addr, needs_paint: *needs_paint },
            NativeCall::ViewGoBack { addr } => CallView::ViewGoBack { addr: *addr },
            NativeCall::ViewGoForward { addr } => CallView::ViewGoForward { addr: *addr },
            NativeCall::ViewGoToHistoryOffset { addr, offset } => CallView::ViewGoToHistoryOffset { addr: *addr, offset: *offset },
            NativeCall::ViewReload { addr } => CallView::ViewReload { addr: *addr },
            NativeCall::ViewStop { addr } => CallView::ViewStop { addr: *addr },
            NativeCall::CreateOverlay { addr, window, width, height, x, y } => CallView::CreateOverlay {
                addr: *addr, window: *window, width: *width, height: *height, x: *x, y: *y,
            },
            NativeCall::DestroyOverlay { addr } => CallView::DestroyOverlay { addr: *addr },
            NativeCall::OverlayMoveTo { addr, x, y } => CallView::OverlayMoveTo { addr: *addr, x: *x, y: *y },
            NativeCall::OverlayResize { addr, width, height } => CallView::OverlayResize { addr: *addr, width: *width, height: *height },
            NativeCall::OverlayShow { addr } => CallView::OverlayShow { addr: *addr },
            NativeCall::OverlayHide { addr } => CallView::OverlayHide { addr: *addr },
            NativeCall::OverlayFocus { addr } => CallView::OverlayFocus { addr: *addr },
            NativeCall::OverlayUnfocus { addr } => CallView::OverlayUnfocus { addr: *addr },
            NativeCall::CreateKeyEvent { addr } => CallView::CreateKeyEvent { addr: *addr },
            NativeCall::DestroyKeyEvent { addr } => CallView::DestroyKeyEvent { addr: *addr },
            NativeCall::CreateMouseEvent { addr } => CallView::CreateMouseEvent { addr: *addr },
            NativeCall::DestroyMouseEvent { addr } => CallView::DestroyMouseEvent { addr: *addr },
            NativeCall::CreateScrollEvent { addr } => CallView::CreateScrollEvent { addr: *addr },
            NativeCall::DestroyScrollEvent { addr } => CallView::DestroyScrollEvent { addr: *addr },
            NativeCall::CreateGamepadEvent { addr } => CallView::CreateGamepadEvent { addr: *addr },
            NativeCall::DestroyGamepadEvent { addr } => CallView::DestroyGamepadEvent { addr: *addr },
            NativeCall::CreateGamepadAxisEvent { addr } => CallView::CreateGamepadAxisEvent { addr: *addr },
            NativeCall::DestroyGamepadAxisEvent { addr } => CallView::DestroyGamepadAxisEvent { addr: *addr },
            NativeCall::CreateGamepadButtonEvent { addr } => CallView::CreateGamepadButtonEvent { addr: *addr },
            NativeCall::DestroyGamepadButtonEvent { addr } => CallView::DestroyGamepadButtonEvent { addr: *addr },
            NativeCall::RendererFireGamepadEvent { addr, event } => CallView::RendererFireGamepadEvent { addr: *addr, event: *event },
            NativeCall::RendererFireGamepadAxisEvent { addr, event } => CallView::RendererFireGamepadAxisEvent { addr: *addr, event: *event },
            NativeCall::RendererFireGamepadButtonEvent { addr, event } => CallView::RendererFireGamepadButtonEvent { addr: *addr, event: *event },
            NativeCall::RendererSetGamepadDetails { addr, index, id, axis_count, button_count } => CallView::RendererSetGamepadDetails {
                addr: *addr, index: *index, id: id@, axis_count: *axis_count, button_count: *button_count,
            },
            NativeCall::EnablePlatformFontLoader => CallView::EnablePlatformFontLoader,
            NativeCall::EnablePlatformFileSystem { base_dir } => CallView::EnablePlatformFileSystem { base_dir: base_dir@ },
            NativeCall::EnableDefaultLogger { log_path } => CallView::EnableDefaultLogger { log_path: log_path@ },
            NativeCall::ImageSourceCreate { addr, bitmap } => CallView::ImageSourceCreate { addr: *addr, bitmap: *bitmap },
            NativeCall::ImageSourceDestroy { addr } => CallView::ImageSourceDestroy { addr: *addr },
            NativeCall::ImageSourceInvalidate { addr } => CallView::ImageSourceInvalidate { addr: *addr },
            NativeCall::JsContextGroupCreate { addr } => CallView::JsContextGroupCreate { addr: *addr },
            NativeCall::JsContextGroupRetain { addr } => CallView::JsContextGroupRetain { addr: *addr },
            NativeCall::JsContextGroupRelease { addr } => CallView::JsContextGroupRelease { addr: *addr },
            NativeCall::JsGlobalContextCreate { addr, group } => CallView::JsGlobalContextCreate { addr: *addr, group: *group },
            NativeCall::JsGlobalContextRetain { addr } => CallView::JsGlobalContextRetain { addr: *addr },
            NativeCall::JsGlobalContextRelease { addr } => CallView::JsGlobalContextRelease { addr: *addr },
            NativeCall::JsGlobalContextSetName { addr, name } => CallView::JsGlobalContextSetName { addr: *addr, name: name@ },
            NativeCall::JsGlobalContextSetInspectable { addr, inspectable } => CallView::JsGlobalContextSetInspectable { addr: *addr, inspectable: *inspectable },
            NativeCall::JsGarbageCollect { addr } => CallView::JsGarbageCollect { addr: *addr },
            NativeCall::JsEvaluateScript { addr, script } => CallView::JsEvaluateScript { addr: *addr, script: script@ },
            NativeCall::JsCheckScriptSyntax { addr, script } => CallView::JsCheckScriptSyntax { addr: *addr, script: script@ },
            NativeCall::JsStringCreate { addr } => CallView::JsStringCreate { addr: *addr },
            NativeCall::JsStringRetain { addr } => CallView::JsStringRetain { addr: *addr },
            NativeCall::JsStringRelease { addr } => CallView::JsStringRelease { addr: *addr },
            NativeCall::JsValueProtect { addr } => CallView::JsValueProtect { addr: *addr },
            NativeCall::JsValueUnprotect { addr } => CallView::JsValueUnprotect { addr: *addr },
            NativeCall::JsObjectSetProperty { addr, private, name, value } => CallView::JsObjectSetProperty { addr: *addr, private: *private, name: name@, value: *value },
            NativeCall::JsCallFunction { addr, this, args } => CallView::JsCallFunction { addr: *addr, this: *this, args: args@ },
            NativeCall::JsCallConstructor { addr, args } => CallView::JsCallConstructor { addr: *addr, args: args@ },
            NativeCall::JsClassCreate { addr, name } => CallView::JsClassCreate { addr: *addr, name: name@ },
            NativeCall::JsClassRetain { addr } => CallView::JsClassRetain { addr: *addr },
            NativeCall::JsClassRelease { addr } => CallView::JsClassRelease { addr: *addr },
            NativeCall::CreateViewConfig { addr } => CallView::CreateViewConfig { addr: *addr },
            NativeCall::DestroyViewConfig { addr } => CallView::DestroyViewConfig { addr: *addr },
            NativeCall::ViewConfigSetDisplayId { addr, display_id } => CallView::ViewConfigSetDisplayId { addr: *addr, display_id: *display_id },
            NativeCall::ViewConfigSetIsAccelerated { addr, is_accelerated } => CallView::ViewConfigSetIsAccelerated { addr: *addr, is_accelerated: *is_accelerated },
            NativeCall::ViewConfigSetIsTransparent { addr, is_transparent } => CallView::ViewConfigSetIsTransparent { addr: *addr, is_transparent: *is_transparent },
            NativeCall::ViewConfigSetInitialFocus { addr, has_focus } => CallView::ViewConfigSetInitialFocus { addr: *addr, has_focus: *has_focus },
            NativeCall::ViewConfigSetEnableImages { addr, enabled } => CallView::ViewConfigSetEnableImages { addr: *addr, enabled: *enabled },
            NativeCall::ViewConfigSetEnableJavaScript { addr, enabled } => CallView::ViewConfigSetEnableJavaScript { addr: *addr, enabled: *enabled },
            NativeCall::ViewConfigSetUserAgent { addr, agent } => CallView::ViewConfigSetUserAgent { addr: *addr, agent: agent@ },
        }
    }
}

/// Spec-level view of the state of one live native object.
pub enum ObjView {
    Settings {
        developer_name: Seq<u8>,
        app_name: Seq<u8>,
        file_system_path: Seq<u8>,
        load_shaders: bool,
        force_cpu: bool,
    },
    Monitor {
        width: u32,
        height: u32,
    },
    Window {
        monitor: u64,
        width: u32,
        height: u32,
        fullscreen: bool,
        flags: u32,
        visible: bool,
        title: Seq<u8>,
        x: i32,
        y: i32,
        close_cb: bool,
        resize_cb: bool,
    },
    Config {
        cache_path: Seq<u8>,
        user_stylesheet: Seq<u8>,
    },
    Renderer {
        default_session: u64,
    },
    Session {
        renderer: u64,
        is_persistent: bool,
        name: Seq<u8>,
    },
    App {
        settings: u64,
        config: u64,
        monitor: u64,
        renderer: u64,
        running: bool,
        update_cb: bool,
    },
    UlString {
        bytes: Seq<u8>,
    },
    Buffer {
        data: Seq<u8>,
        owns_data: bool,
    },
    Surface {
        width: u32,
        height: u32,
        row_bytes: u32,
        pixels: Seq<u8>,
        locked: bool,
        dirty: (i32, i32, i32, i32),
    },
    Bitmap {
        width: u32,
        height: u32,
        format: u32,
        row_bytes: u32,
        pixels: Seq<u8>,
        locked: bool,
        owns_pixels: bool,
    },
    View {
        renderer: u64,
        width: u32,
        height: u32,
        url: Seq<u8>,
        title: Seq<u8>,
        needs_paint: bool,
        surface: u64,
        js_ctx: u64,
        js_locked: bool,
        callbacks: u32,
        focused: bool,
    },
    Overlay {
        window: u64,
        view: u64,
        width: u32,
        height: u32,
        x: i32,
        y: i32,
        hidden: bool,
        focused: bool,
    },
    JsContextGroup {
        refcount: u32,
    },
    JsContext {
        group: u64,
        global_object: u64,
        name: Seq<u8>,
        inspectable: bool,
        refcount: u32,
    },
    JsString {
        bytes: Seq<u8>,
        refcount: u32,
    },
    JsClass {
        name: Seq<u8>,
        attributes: u32,
        callback_flags: u32,
        static_values: Seq<(Seq<u8>, bool, bool, u32)>,
        static_functions: Seq<Seq<u8>>,
        refcount: u32,
    },
    JsValue {
        data: JsDataView,
    },
    KeyEvent {
        ev_type: u32,
        modifiers: u32,
        virtual_key_code: i32,
        native_key_code: i32,
        text: Seq<u8>,
        unmodified_text: Seq<u8>,
        is_keypad: bool,
        is_auto_repeat: bool,
        is_system_key: bool,
    },
    MouseEvent {
        ev_type: u32,
        x: i32,
        y: i32,
        button: u32,
    },
    ScrollEvent {
        ev_type: u32,
        delta_x: i32,
        delta_y: i32,
    },
    GamepadEvent {
        index: u32,
        ev_type: u32,
    },
    GamepadAxisEvent {
        index: u32,
        axis_index: u32,
    },
    GamepadButtonEvent {
        index: u32,
        button_index: u32,
    },
    ImageSource {
        bitmap: u64,
    },
    ViewConfig {
        display_id: u32,
        is_accelerated: bool,
        is_transparent: bool,
        initial_focus: bool,
        enable_images: bool,
        enable_javascript: bool,
        user_agent: Seq<u8>,
    },
}

/// Stored state of one live native object.
pub enum ObjState {
    Settings {
        developer_name: Vec<u8>,
        app_name: Vec<u8>,
        file_system_path: Vec<u8>,
        load_shaders: bool,
        force_cpu: bool,
    },
    Monitor {
        width: u32,
        height: u32,
    },
    Window {
        monitor: u64,
        width: u32,
        height: u32,
        fullscreen: bool,
        flags: u32,
        visible: bool,
        title: Vec<u8>,
        x: i32,
        y: i32,
        close_cb: bool,
        resize_cb: bool,
    },
    Config {
        cache_path: Vec<u8>,
        user_stylesheet: Vec<u8>,
    },
    Renderer {
        default_session: u64,
    },
    Session {
        renderer: u64,
        is_persistent: bool,
        name: Vec<u8>,
    },
    App {
        settings: u64,
        config: u64,
        monitor: u64,
        renderer: u64,
        running: bool,
        update_cb: bool,
    },
    UlString {
        bytes: Vec<u8>,
    },
    Buffer {
        data: Vec<u8>,
        owns_data: bool,
    },
    Surface {
        width: u32,
        height: u32,
        row_bytes: u32,
        pixels: Vec<u8>,
        locked: bool,
        dirty: (i32, i32, i32, i32),
    },
    Bitmap {
        width: u32,
        height: u32,
        format: u32,
        row_bytes: u32,
        pixels: Vec<u8>,
        locked: bool,
        owns_pixels: bool,
    },
    View {
        renderer: u64,
        width: u32,
        height: u32,
        url: Vec<u8>,
        title: Vec<u8>,
        needs_paint: bool,
        surface: u64,
        js_ctx: u64,
        js_locked: bool,
        callbacks: u32,
        focused: bool,
    },
    Overlay {
        window: u64,
        view: u64,
        width: u32,
        height: u32,
        x: i32,
        y: i32,
        hidden: bool,
        focused: bool,
    },
    JsContextGroup {
        refcount: u32,
    },
    JsContext {
        group: u64,
        global_object: u64,
        name: Vec<u8>,
        inspectable: bool,
        refcount: u32,
    },
    JsString {
        bytes: Vec<u8>,
        refcount: u32,
    },
    JsClass {
        name: Vec<u8>,
        attributes: u32,
        callback_flags: u32,
        static_values: Vec<(Vec<u8>, bool, bool, u32)>,
        static_functions: Vec<Vec<u8>>,
        refcount: u32,
    },
    JsValue {
        data: JsData,
    },
    KeyEvent {
        ev_type: u32,
        modifiers: u32,
        virtual_key_code: i32,
        native_key_code: i32,
        text: Vec<u8>,
        unmodified_text: Vec<u8>,
        is_keypad: bool,
        is_auto_repeat: bool,
        is_system_key: bool,
    },
    MouseEvent {
        ev_type: u32,
        x: i32,
        y: i32,
        button: u32,
    },
    ScrollEvent {
        ev_type: u32,
        delta_x: i32,
        delta_y: i32,
    },
    GamepadEvent {
        index: u32,
        ev_type: u32,
    },
    GamepadAxisEvent {
        index: u32,
        axis_index: u32,
    },
    GamepadButtonEvent {
        index: u32,
        button_index: u32,
    },
    ImageSource {
        bitmap: u64,
    },
    ViewConfig {
        display_id: u32,
        is_accelerated: bool,
        is_transparent: bool,
        initial_focus: bool,
        enable_images: bool,
        enable_javascript: bool,
        user_agent: Vec<u8>,
    },
}

impl View for ObjState {
    type V = ObjView;

    open spec fn view(&self) -> ObjView {
        match self {
            ObjState::Settings { developer_name, app_name, file_system_path, load_shaders, force_cpu } => ObjView::Settings {
                developer_name: developer_name@,
                app_name: app_name@,
                file_system_path: file_system_path@,
                load_shaders: *load_shaders,
                force_cpu: *force_cpu,
            },
            ObjState::Monitor { width, height } => ObjView::Monitor { width: *width, height: *height },
            ObjState::Window { monitor, width, height, fullscreen, flags, visible, title, x, y, close_cb, resize_cb } => ObjView::Window {
                monitor: *monitor,
                width: *width,
                height: *height,
                fullscreen: *fullscreen,
                flags: *flags,
                visible: *visible,
                title: title@,
                x: *x,
                y: *y,
                close_cb: *close_cb,
                resize_cb: *resize_cb,
            },
            ObjState::Config { cache_path, user_stylesheet } => ObjView::Config {
                cache_path: cache_path@,
                user_stylesheet: user_stylesheet@,
            },
            ObjState::Renderer { default_session } => ObjView::Renderer { default_session: *default_session },
            ObjState::Session { renderer, is_persistent, name } => ObjView::Session {
                renderer: *renderer,
                is_persistent: *is_persistent,
                name: name@,
            },
            ObjState::App { settings, config, monitor, renderer, running, update_cb } => ObjView::App {
                settings: *settings,
                config: *config,
                monitor: *monitor,
                renderer: *renderer,
                running: *running,
                update_cb: *update_cb,
            },
            ObjState::UlString { bytes } => ObjView::UlString { bytes: bytes@ },
            ObjState::Buffer { data, owns_data } => ObjView::Buffer { data: data@, owns_data: *owns_data },
            ObjState::Surface { width, height, row_bytes, pixels, locked, dirty } => ObjView::Surface {
                width: *width,
                height: *height,
                row_bytes: *row_bytes,
                pixels: pixels@,
                locked: *locked,
                dirty: *dirty,
            },
            ObjState::Bitmap { width, height, format, row_bytes, pixels, locked, owns_pixels } => ObjView::Bitmap {
                width: *width,
                height: *height,
                format: *format,
                row_bytes: *row_bytes,
                pixels: pixels@,
                locked: *locked,
                owns_pixels: *owns_pixels,
            },
            ObjState::View { renderer, width, height, url, title, needs_paint, surface, js_ctx, js_locked, callbacks, focused } => ObjView::View {
                renderer: *renderer,
                width: *width,
                height: *height,
                url: url@,
                title: title@,
                needs_paint: *needs_paint,
                surface: *surface,
                js_ctx: *js_ctx,
                js_locked: *js_locked,
                callbacks: *callbacks,
                focused: *focused,
            },
            ObjState::Overlay { window, view, width, height, x, y, hidden, focused } => ObjView::Overlay {
                window: *window,
                view: *view,
                width: *width,
                height: *height,
                x: *x,
                y: *y,
                hidden: *hidden,
                focused: *focused,
            },
            ObjState::JsContextGroup { refcount } => ObjView::JsContextGroup { refcount: *refcount },
            ObjState::JsContext { group, global_object, name, inspectable, refcount } => ObjView::JsContext {
                group: *group,
                global_object: *global_object,
                name: name@,
                inspectable: *inspectable,
                refcount: *refcount,
            },
            ObjState::JsValue { data } => ObjView::JsValue { data: data@ },
            ObjState::JsString { bytes, refcount } => ObjView::JsString { bytes: bytes@, refcount: *refcount },
            ObjState::JsClass { name, attributes, callback_flags, static_values, static_functions, refcount } => ObjView::JsClass {
                name: name@,
                attributes: *attributes,
                callback_flags: *callback_flags,
                static_values: static_values@.map_values(|v: (Vec<u8>, bool, bool, u32)| (v.0@, v.1, v.2, v.3)),
                static_functions: static_functions@.map_values(|v: Vec<u8>| v@),
                refcount: *refcount,
            },
            ObjState::KeyEvent { ev_type, modifiers, virtual_key_code, native_key_code, text, unmodified_text, is_keypad, is_auto_repeat, is_system_key } => ObjView::KeyEvent {
                ev_type: *ev_type,
                modifiers: *modifiers,
                virtual_key_code: *virtual_key_code,
                native_key_code: *native_key_code,
                text: text@,
                unmodified_text: unmodified_text@,
                is_keypad: *is_keypad,
                is_auto_repeat: *is_auto_repeat,
                is_system_key: *is_system_key,
            },
            ObjState::MouseEvent { ev_type, x, y, button } => ObjView::MouseEvent { ev_type: *ev_type, x: *x, y: *y, button: *button },
            ObjState::ScrollEvent { ev_type, delta_x, delta_y } => ObjView::ScrollEvent { ev_type: *ev_type, delta_x: *delta_x, delta_y: *delta_y },
            ObjState::GamepadEvent { index, ev_type } => ObjView::GamepadEvent { index: *index, ev_type: *ev_type },
            ObjState::GamepadAxisEvent { index, axis_index } => ObjView::GamepadAxisEvent { index: *index, axis_index: *axis_index },
            ObjState::GamepadButtonEvent { index, button_index } => ObjView::GamepadButtonEvent { index: *index, button_index: *button_index },
            ObjState::ImageSource { bitmap } => ObjView::ImageSource { bitmap: *bitmap },
            ObjState::ViewConfig { display_id, is_accelerated, is_transparent, initial_focus, enable_images, enable_javascript, user_agent } => ObjView::ViewConfig {
                display_id: *display_id,
                is_accelerated: *is_accelerated,
                is_transparent: *is_transparent,
                initial_focus: *initial_focus,
                enable_images: *enable_images,
                enable_javascript: *enable_javascript,
                user_agent: user_agent@,
            },
        }
    }
}

/// Whether `bytes` holds an embedded NUL byte. Such data cannot cross a
/// boundary that expects NUL-terminated C strings, so the wrappers reject it
/// with a typed error before any native call is made.
pub fn contains_nul(bytes: &[u8]) -> (r: bool)
    ensures
        r == bytes@.contains(0u8),
{
    let mut k: usize = 0;
    while k < bytes.len()
        invariant
            k <= bytes@.len(),
            forall|i: int| 0 <= i < k ==> bytes@[i] != 0,
        decreases bytes@.len() - k,
    {
        if bytes[k] == 0 {
            proof {
                assert(bytes@.contains(0u8)) by {
                    assert(bytes@[k as int] == 0u8);
                }
            }
            return true;
        }
        k = k + 1;
    }
    proof {
        assert(!bytes@.contains(0u8)) by {
            if bytes@.contains(0u8) {
                let i = choose|i: int| 0 <= i < bytes@.len() && bytes@[i] == 0u8;
                assert(bytes@[i] != 0);
            }
        }
    }
    false
}

/// Spec-level view of the payload of one JavaScript value.
pub enum JsDataView {
    Undefined,
    Null,
    Boolean { b: bool },
    Number { n: i64 },
    Text { bytes: Seq<u8> },
    Symbol,
    Object { obj: JsObjDataView },
}

/// Spec-level view of the object payload of a JavaScript value.
pub struct JsObjDataView {
    /// Named properties: name bytes paired with the value's address.
    pub props: Seq<(Seq<u8>, u64)>,
    /// Private properties, reachable only through the private API.
    pub private_props: Seq<(Seq<u8>, u64)>,
    /// The private data pointer; 0 when absent.
    pub private_data: u64,
    /// The proxy target; 0 when this object is no proxy.
    pub proxy_target: u64,
    /// What the engine's string conversion yields for this object, when it
    /// yields anything.
    pub str_repr: Option<Seq<u8>>,
    /// Whether the object is callable.
    pub is_function: bool,
    /// Whether the object can construct.
    pub is_constructor: bool,
    /// The class the object was made with; 0 for plain objects.
    pub class_of: u64,
    /// The typed-array kind code; `None` for ordinary objects.
    pub typed_array_kind: Option<u32>,
    /// Typed-array element count.
    pub ta_length: usize,
    /// Typed-array offset into its buffer, in bytes.
    pub ta_byte_offset: usize,
    /// Typed-array extent in bytes.
    pub ta_byte_length: usize,
    /// The backing array buffer's address; 0 when absent.
    pub ta_buffer: u64,
}

/// The payload of one JavaScript value.
pub enum JsData {
    Undefined,
    Null,
    Boolean { b: bool },
    Number { n: i64 },
    Text { bytes: Vec<u8> },
    Symbol,
    Object { obj: JsObjData },
}

/// The object payload of one JavaScript value.
pub struct JsObjData {
    pub props: Vec<(Vec<u8>, u64)>,
    pub private_props: Vec<(Vec<u8>, u64)>,
    pub private_data: u64,
    pub proxy_target: u64,
    pub str_repr: Option<Vec<u8>>,
    pub is_function: bool,
    pub is_constructor: bool,
    pub class_of: u64,
    pub typed_array_kind: Option<u32>,
    pub ta_length: usize,
    pub ta_byte_offset: usize,
    pub ta_byte_length: usize,
    pub ta_buffer: u64,
}

impl View for JsObjData {
    type V = JsObjDataView;

    open spec fn view(&self) -> JsObjDataView {
        JsObjDataView {
            props: self.props@.map_values(|p: (Vec<u8>, u64)| (p.0@, p.1)),
            private_props: self.private_props@.map_values(|p: (Vec<u8>, u64)| (p.0@, p.1)),
            private_data: self.private_data,
            proxy_target: self.proxy_target,
            str_repr: match self.str_repr {
                Some(v) => Some(v@),
                None => None,
            },
            is_function: self.is_function,
            is_constructor: self.is_constructor,
            class_of: self.class_of,
            typed_array_kind: self.typed_array_kind,
            ta_length: self.ta_length,
            ta_byte_offset: self.ta_byte_offset,
            ta_byte_length: self.ta_byte_length,
            ta_buffer: self.ta_buffer,
        }
    }
}

impl View for JsData {
    type V = JsDataView;

    open spec fn view(&self) -> JsDataView {
        match self {
            JsData::Undefined => JsDataView::Undefined,
            JsData::Null => JsDataView::Null,
            JsData::Boolean { b } => JsDataView::Boolean { b: *b },
            JsData::Number { n } => JsDataView::Number { n: *n },
            JsData::Text { bytes } => JsDataView::Text { bytes: bytes@ },
            JsData::Symbol => JsDataView::Symbol,
            JsData::Object { obj } => JsDataView::Object { obj: obj@ },
        }
    }
}

/// A fresh, empty object payload.
pub open spec fn empty_js_object_view() -> JsObjDataView {
    JsObjDataView {
        props: Seq::empty(),
        private_props: Seq::empty(),
        private_data: 0,
        proxy_target: 0,
        str_repr: None,
        is_function: false,
        is_constructor: false,
        class_of: 0,
        typed_array_kind: None,
        ta_length: 0,
        ta_byte_offset: 0,
        ta_byte_length: 0,
        ta_buffer: 0,
    }
}

/// The first value bound to `name`, scanning the property list in order.
pub open spec fn prop_lookup(props: Seq<(Seq<u8>, u64)>, name: Seq<u8>) -> Option<u64>
    decreases props.len(),
{
    if props.len() == 0 {
        None
    } else if props[0].0 == name {
        Some(props[0].1)
    } else {
        prop_lookup(props.drop_first(), name)
    }
}

/// The decimal digits of a natural number, most significant first.
pub open spec fn dec_digits(n: nat) -> Seq<u8>
    decreases n,
{
    if n < 10 {
        seq![(48 + n) as u8]
    } else {
        dec_digits(n / 10).push((48 + n % 10) as u8)
    }
}

/// The decimal rendering of an integer: a minus sign for negatives, then
/// the digits.
pub open spec fn dec_text(n: int) -> Seq<u8> {
    if n < 0 {
        seq![45u8] + dec_digits((-n) as nat)
    } else {
        dec_digits(n as nat)
    }
}

/// The decimal digits of `n`, most significant first.
fn dec_digits_exec(n: u64) -> (v: Vec<u8>)
    ensures
        v@ == dec_digits(n as nat),
    decreases n,
{
    if n < 10 {
        let mut v: Vec<u8> = Vec::new();
        v.push(48 + n as u8);
        proof {
            assert(v@ =~= dec_digits(n as nat));
        }
        v
    } else {
        let mut v = dec_digits_exec(n / 10);
        v.push(48 + (n % 10) as u8);
        proof {
            assert(v@ =~= dec_digits(n as nat));
        }
        v
    }
}

/// The decimal rendering of `n`.
fn dec_text_exec(n: i64) -> (v: Vec<u8>)
    ensures
        v@ == dec_text(n as int),
{
    if n < 0 {
        let magnitude = if n == i64::MIN {
            9223372036854775808u64
        } else {
            (-n) as u64
        };
        let digits = dec_digits_exec(magnitude);
        let mut v: Vec<u8> = Vec::new();
        v.push(45);
        let mut k: usize = 0;
        while k < digits.len()
            invariant
                magnitude == (-(n as int)) as nat,
                digits@ == dec_digits(magnitude as nat),
                k <= digits@.len(),
                v@.len() == k + 1,
                v@[0] == 45u8,
                forall|i: int| 0 <= i < k ==> v@[i + 1] == digits@[i],
            decreases digits@.len() - k,
        {
            v.push(digits[k]);
            k = k + 1;
        }
        proof {
            assert(v@ =~= seq![45u8] + dec_digits((-(n as int)) as nat));
        }
        v
    } else {
        dec_digits_exec(n as u64)
    }
}

/// What the engine's string conversion yields for a value, when it yields
/// anything: strings convert to themselves, booleans, undefined, and null
/// to their keywords, numbers to their decimal rendering, objects to their
/// recorded representation; symbols are not modeled as convertible.
pub open spec fn value_text(data: JsDataView) -> Option<Seq<u8>> {
    match data {
        JsDataView::Text { bytes } => Some(bytes),
        JsDataView::Boolean { b } => Some(if b { "true".spec_bytes() } else { "false".spec_bytes() }),
        JsDataView::Undefined => Some("undefined".spec_bytes()),
        JsDataView::Null => Some("null".spec_bytes()),
        JsDataView::Number { n } => Some(dec_text(n as int)),
        JsDataView::Object { obj } => obj.str_repr,
        _ => None,
    }
}

/// What the engine's number conversion yields for a value, when it yields
/// anything.
pub open spec fn value_num(data: JsDataView) -> Option<i64> {
    match data {
        JsDataView::Number { n } => Some(n),
        JsDataView::Boolean { b } => Some(if b { 1i64 } else { 0i64 }),
        JsDataView::Null => Some(0i64),
        _ => None,
    }
}

/// What the truthiness conversion yields for a value.
pub open spec fn value_truthy(data: JsDataView) -> bool {
    match data {
        JsDataView::Undefined => false,
        JsDataView::Null => false,
        JsDataView::Boolean { b } => b,
        JsDataView::Number { n } => n != 0,
        JsDataView::Text { bytes } => bytes.len() > 0,
        JsDataView::Symbol => true,
        JsDataView::Object { .. } => true,
    }
}

/// The kind code of a value's payload, as the type query reports it.
pub open spec fn value_kind(data: JsDataView) -> u32 {
    match data {
        JsDataView::Undefined => 0u32,
        JsDataView::Null => 1u32,
        JsDataView::Boolean { .. } => 2u32,
        JsDataView::Number { .. } => 3u32,
        JsDataView::Text { .. } => 4u32,
        JsDataView::Object { .. } => 5u32,
        JsDataView::Symbol => 6u32,
    }
}

/// Whether two byte slices hold the same bytes.
pub fn bytes_eq(a: &[u8], b: &[u8]) -> (r: bool)
    ensures
        r == (a@ == b@),
{
    if a.len() != b.len() {
        proof {
            assert(a@ != b@) by {
                assert(a@.len() != b@.len());
            }
        }
        return false;
    }
    let n = a.len();
    let mut k: usize = 0;
    while k < n
        invariant
            n == a@.len(),
            n == b@.len(),
            k <= n,
            forall|i: int| 0 <= i < k ==> a@[i] == b@[i],
        decreases n - k,
    {
        if a[k] != b[k] {
            return false;
        }
        k = k + 1;
    }
    proof {
        assert(a@ =~= b@);
    }
    true
}

/// The index of the first binding of `name` in a property list, if any.
fn find_prop_index(props: &Vec<(Vec<u8>, u64)>, name: &[u8]) -> (r: Option<usize>)
    ensures
        ({
            let gprops = props@.map_values(|p: (Vec<u8>, u64)| (p.0@, p.1));
            match r {
                Some(i) => i < gprops.len() && gprops[i as int].0 == name@
                    && (forall|j: int| 0 <= j < i ==> gprops[j].0 != name@),
                None => forall|j: int| 0 <= j < gprops.len() ==> gprops[j].0 != name@,
            }
        }),
{
    let ghost gprops = props@.map_values(|p: (Vec<u8>, u64)| (p.0@, p.1));
    let n = props.len();
    let mut k: usize = 0;
    while k < n
        invariant
            n == props@.len(),
            gprops == props@.map_values(|p: (Vec<u8>, u64)| (p.0@, p.1)),
            n == gprops.len(),
            k <= n,
            forall|j: int| 0 <= j < k ==> gprops[j].0 != name@,
        decreases n - k,
    {
        if bytes_eq(props[k].0.as_slice(), name) {
            return Some(k);
        }
        k = k + 1;
    }
    None
}

/// The first binding of a name decides its lookup.
proof fn lemma_prop_lookup_found(props: Seq<(Seq<u8>, u64)>, i: int, name: Seq<u8>)
    requires
        0 <= i < props.len(),
        props[i].0 == name,
        forall|j: int| 0 <= j < i ==> props[j].0 != name,
    ensures
        prop_lookup(props, name) == Some(props[i].1),
    decreases i,
{
    if i > 0 {
        lemma_prop_lookup_found(props.drop_first(), i - 1, name);
    }
}

/// A name bound nowhere looks up to nothing.
proof fn lemma_prop_lookup_absent(props: Seq<(Seq<u8>, u64)>, name: Seq<u8>)
    requires
        forall|j: int| 0 <= j < props.len() ==> props[j].0 != name,
    ensures
        prop_lookup(props, name) is None,
    decreases props.len(),
{
    if props.len() > 0 {
        lemma_prop_lookup_absent(props.drop_first(), name);
    }
}

/// Rebinding one name at its first occurrence changes that binding and no
/// other.
proof fn lemma_prop_lookup_update(props: Seq<(Seq<u8>, u64)>, i: int, name: Seq<u8>, value: u64, k: Seq<u8>)
    requires
        0 <= i < props.len(),
        props[i].0 == name,
        forall|j: int| 0 <= j < i ==> props[j].0 != name,
    ensures
        prop_lookup(props.update(i, (name, value)), k) == if k == name {
            Some(value)
        } else {
            prop_lookup(props, k)
        },
    decreases i,
{
    let u = props.update(i, (name, value));
    if i == 0 {
        assert(u.drop_first() =~= props.drop_first());
    } else {
        assert(u[0] == props[0]);
        assert(u.drop_first() =~= props.drop_first().update(i - 1, (name, value)));
        lemma_prop_lookup_update(props.drop_first(), i - 1, name, value, k);
    }
}

/// Appending a binding for an unbound name adds that binding and changes no
/// other.
proof fn lemma_prop_lookup_push(props: Seq<(Seq<u8>, u64)>, name: Seq<u8>, value: u64, k: Seq<u8>)
    requires
        forall|j: int| 0 <= j < props.len() ==> props[j].0 != name,
    ensures
        prop_lookup(props.push((name, value)), k) == if k == name {
            Some(value)
        } else {
            prop_lookup(props, k)
        },
    decreases props.len(),
{
    if props.len() == 0 {
        assert(props.push((name, value)).drop_first() =~= Seq::<(Seq<u8>, u64)>::empty());
        assert(prop_lookup(Seq::<(Seq<u8>, u64)>::empty(), k) is None);
    } else {
        assert(props.push((name, value)).drop_first() =~= props.drop_first().push((name, value)));
        lemma_prop_lookup_push(props.drop_first(), name, value, k);
    }
}

/// Bytes per pixel of a bitmap format code: format 0 stores one alpha byte
/// per pixel, format 1 stores four BGRA bytes per pixel.
pub open spec fn format_bpp(format: u32) -> nat {
    if format == 0u32 {
        1nat
    } else {
        4nat
    }
}

/// A BGRA pixel buffer with its red and blue channels exchanged: within
/// every four-byte pixel, bytes 0 and 2 trade places and the rest stay.
pub open spec fn bgra_swapped(s: Seq<u8>) -> Seq<u8> {
    Seq::new(s.len(), |i: int| {
        if i % 4 == 0 && i + 2 < s.len() {
            s[i + 2]
        } else if i % 4 == 2 {
            s[i - 2]
        } else {
            s[i]
        }
    })
}

/// A buffer of `n` zero bytes, as a fresh native allocation would hand out.
fn zero_vec(n: usize) -> (v: Vec<u8>)
    ensures
        v@ == Seq::new(n as nat, |i: int| 0u8),
{
    let mut v: Vec<u8> = Vec::new();
    let mut k: usize = 0;
    while k < n
        invariant
            k <= n,
            v@.len() == k,
            forall|i: int| 0 <= i < k ==> v@[i] == 0u8,
        decreases n - k,
    {
        v.push(0);
        k = k + 1;
    }
    proof {
        assert(v@ =~= Seq::new(n as nat, |i: int| 0u8));
    }
    v
}

/// The modeled native layer: an address allocator, the live-object table, and
/// the log of calls that crossed the boundary.
///
/// Address 0 stands for the null pointer and is never allocated. A destroyed
/// object's slot stays empty, so addresses are never reused.
pub struct NativeHost {
    objects: Vec<Option<ObjState>>,
    log: Vec<NativeCall>,
    fail_next_create: bool,
    staged_view_evals: Vec<(bool, Vec<u8>)>,
    staged_js_evals: Vec<(bool, u64)>,
    staged_js_calls: Vec<(bool, u64)>,
    staged_js_syntax: Vec<bool>,
}

impl NativeHost {
    /// The calls recorded so far, oldest first.
    pub closed spec fn calls(self) -> Seq<CallView> {
        self.log@.map_values(|c: NativeCall| c@)
    }

    /// The state of the object at `addr`, or `None` when nothing live is there.
    pub closed spec fn obj(self, addr: u64) -> Option<ObjView> {
        if 1 <= addr && addr <= self.objects@.len() {
            match self.objects@[addr - 1] {
                Some(o) => Some(o@),
                None => None,
            }
        } else {
            None
        }
    }

    /// Whether a live native object sits at `addr`.
    pub open spec fn live(self, addr: u64) -> bool {
        self.obj(addr) is Some
    }

    /// How many addresses have ever been handed out.
    pub closed spec fn allocated(self) -> nat {
        self.objects@.len()
    }

    /// Whether the next creation call is staged to fail (return null).
    pub closed spec fn create_staged_to_fail(self) -> bool {
        self.fail_next_create
    }

    /// A creation call made in this state hands back a fresh address.
    pub open spec fn create_succeeds(self) -> bool {
        !self.create_staged_to_fail() && self.allocated() < usize::MAX as nat
    }

    /// The objects of `self` and `other` agree everywhere but `addr`.
    pub open spec fn objs_same_except(self, other: Self, addr: u64) -> bool {
        forall|a: u64| a != addr ==> self.obj(a) == other.obj(a)
    }

    /// The objects of `self` and `other` agree everywhere but `a1` and `a2`.
    pub open spec fn objs_same_except2(self, other: Self, a1: u64, a2: u64) -> bool {
        forall|a: u64| a != a1 && a != a2 ==> self.obj(a) == other.obj(a)
    }

    /// The objects of `self` and `other` agree everywhere but the four given
    /// addresses.
    pub open spec fn objs_same_except4(self, other: Self, a1: u64, a2: u64, a3: u64, a4: u64) -> bool {
        forall|a: u64| a != a1 && a != a2 && a != a3 && a != a4 ==> self.obj(a) == other.obj(a)
    }

    /// The objects of `self` and `other` agree everywhere but the five given
    /// addresses.
    pub open spec fn objs_same_except5(self, other: Self, a1: u64, a2: u64, a3: u64, a4: u64, a5: u64) -> bool {
        forall|a: u64| a != a1 && a != a2 && a != a3 && a != a4 && a != a5 ==> self.obj(a) == other.obj(a)
    }

    /// The objects of `self` and `other` agree everywhere.
    pub open spec fn objs_same(self, other: Self) -> bool {
        forall|a: u64| self.obj(a) == other.obj(a)
    }

    /// How many addresses have been handed out, for resource-exhaustion
    /// checks before multi-object creations.
    pub fn slots(&self) -> (n: usize)
        ensures
            n == self.allocated(),
    {
        self.objects.len()
    }

    /// The staged outcomes for upcoming script evaluations, oldest first:
    /// whether the evaluation succeeds, and the result or exception text.
    pub closed spec fn view_eval_queue(self) -> Seq<(bool, Seq<u8>)> {
        self.staged_view_evals@.map_values(|e: (bool, Vec<u8>)| (e.0, e.1@))
    }

    /// The staged outcomes for upcoming JavaScript evaluations, oldest
    /// first: whether the evaluation succeeded, and the result or exception
    /// value's address.
    pub closed spec fn js_eval_queue(self) -> Seq<(bool, u64)> {
        self.staged_js_evals@
    }

    /// The staged outcomes for upcoming JavaScript function or constructor
    /// calls, oldest first.
    pub closed spec fn js_call_queue(self) -> Seq<(bool, u64)> {
        self.staged_js_calls@
    }

    /// The staged verdicts for upcoming syntax checks, oldest first.
    pub closed spec fn js_syntax_queue(self) -> Seq<bool> {
        self.staged_js_syntax@
    }

    /// A fresh host with no objects and an empty log.
    pub fn new() -> (h: Self)
        ensures
            h.calls() == Seq::<CallView>::empty(),
            h.allocated() == 0,
            !h.create_staged_to_fail(),
            forall|a: u64| !h.live(a),
            h.view_eval_queue() == Seq::<(bool, Seq<u8>)>::empty(),
            h.js_eval_queue() == Seq::<(bool, u64)>::empty(),
            h.js_call_queue() == Seq::<(bool, u64)>::empty(),
            h.js_syntax_queue() == Seq::<bool>::empty(),
    {
        let h = NativeHost {
            objects: Vec::new(),
            log: Vec::new(),
            fail_next_create: false,
            staged_view_evals: Vec::new(),
            staged_js_evals: Vec::new(),
            staged_js_calls: Vec::new(),
            staged_js_syntax: Vec::new(),
        };
        proof {
            assert(h.calls() =~= Seq::<CallView>::empty());
            assert(h.view_eval_queue() =~= Seq::<(bool, Seq<u8>)>::empty());
        }
        h
    }

    /// Stage the next creation call to fail, as a native layer out of
    /// resources would.
    pub fn stage_create_failure(&mut self)
        ensures
            final(self).create_staged_to_fail(),
            final(self).calls() == old(self).calls(),
            final(self).allocated() == old(self).allocated(),
            final(self).objs_same(*old(self)),
    {
        self.fail_next_create = true;
    }

    /// The recorded calls, for outside observation.
    pub fn log(&self) -> (r: &Vec<NativeCall>)
        ensures
            r@.map_values(|c: NativeCall| c@) == self.calls(),
    {
        &self.log
    }

    /// How many calls have been recorded.
    pub fn log_len(&self) -> (n: usize)
        ensures
            n == self.calls().len(),
    {
        self.log.len()
    }

    fn record(&mut self, c: NativeCall)
        ensures
            final(self).calls() == old(self).calls().push(c@),
            final(self).objects == old(self).objects,
            final(self).fail_next_create == old(self).fail_next_create,
            final(self).staged_view_evals == old(self).staged_view_evals,
            final(self).staged_js_evals == old(self).staged_js_evals,
            final(self).staged_js_calls == old(self).staged_js_calls,
            final(self).staged_js_syntax == old(self).staged_js_syntax,
    {
        self.log.push(c);
        proof {
            assert(final(self).calls() =~= old(self).calls().push(c@));
        }
    }

    /// Allocate a slot for a new object; 0 means the creation failed.
    fn fresh_slot(&mut self, o: ObjState) -> (addr: u64)
        ensures
            old(self).create_succeeds() ==> addr != 0,
            !old(self).create_succeeds() ==> addr == 0,
            addr != 0 ==> {
                &&& !old(self).live(addr)
                &&& final(self).obj(addr) == Some(o@)
                &&& final(self).allocated() == old(self).allocated() + 1
            },
            addr == 0 ==> {
                &&& final(self).allocated() == old(self).allocated()
                &&& final(self).objs_same(*old(self))
            },
            final(self).objs_same_except(*old(self), addr),
            final(self).calls() == old(self).calls(),
            !final(self).create_staged_to_fail(),
            final(self).staged_view_evals == old(self).staged_view_evals,
            final(self).staged_js_evals == old(self).staged_js_evals,
            final(self).staged_js_calls == old(self).staged_js_calls,
            final(self).staged_js_syntax == old(self).staged_js_syntax,
    {
        if self.fail_next_create {
            self.fail_next_create = false;
            return 0;
        }
        self.grow_slot(o)
    }

    /// Allocate a slot, ignoring any staged creation failure; 0 only when the
    /// address space is exhausted.
    fn grow_slot(&mut self, o: ObjState) -> (addr: u64)
        ensures
            addr != 0 <==> old(self).allocated() < usize::MAX as nat,
            addr != 0 ==> {
                &&& !old(self).live(addr)
                &&& final(self).obj(addr) == Some(o@)
                &&& final(self).allocated() == old(self).allocated() + 1
            },
            addr == 0 ==> {
                &&& final(self).allocated() == old(self).allocated()
                &&& final(self).objs_same(*old(self))
            },
            final(self).objs_same_except(*old(self), addr),
            final(self).calls() == old(self).calls(),
            final(self).fail_next_create == old(self).fail_next_create,
            final(self).staged_view_evals == old(self).staged_view_evals,
            final(self).staged_js_evals == old(self).staged_js_evals,
            final(self).staged_js_calls == old(self).staged_js_calls,
            final(self).staged_js_syntax == old(self).staged_js_syntax,
    {
        if self.objects.len() == usize::MAX {
            return 0;
        }
        let idx = self.objects.len();
        self.objects.push(Some(o));
        (idx as u64) + 1
    }

    fn take_obj(&mut self, addr: u64) -> (o: Option<ObjState>)
        ensures
            match o {
                Some(st) => old(self).obj(addr) == Some(st@),
                None => old(self).obj(addr) is None,
            },
            final(self).obj(addr) is None,
            final(self).objs_same_except(*old(self), addr),
            final(self).calls() == old(self).calls(),
            final(self).allocated() == old(self).allocated(),
            final(self).fail_next_create == old(self).fail_next_create,
            final(self).staged_view_evals == old(self).staged_view_evals,
            final(self).staged_js_evals == old(self).staged_js_evals,
            final(self).staged_js_calls == old(self).staged_js_calls,
            final(self).staged_js_syntax == old(self).staged_js_syntax,
    {
        if addr >= 1 && addr <= self.objects.len() as u64 {
            let i = (addr - 1) as usize;
            let mut taken: Option<ObjState> = None;
            self.objects.set_and_swap(i, &mut taken);
            taken
        } else {
            None
        }
    }

    fn get_obj(&self, addr: u64) -> (o: Option<&ObjState>)
        ensures
            match o {
                Some(st) => self.obj(addr) == Some(st@),
                None => self.obj(addr) is None,
            },
    {
        if addr >= 1 && addr <= self.objects.len() as u64 {
            let i = (addr - 1) as usize;
            match &self.objects[i] {
                Some(o) => Some(o),
                None => None,
            }
        } else {
            None
        }
    }

    fn put_obj(&mut self, addr: u64, o: ObjState)
        requires
            1 <= addr,
            addr <= old(self).allocated(),
        ensures
            final(self).obj(addr) == Some(o@),
            final(self).objs_same_except(*old(self), addr),
            final(self).calls() == old(self).calls(),
            final(self).allocated() == old(self).allocated(),
            final(self).fail_next_create == old(self).fail_next_create,
            final(self).staged_view_evals == old(self).staged_view_evals,
            final(self).staged_js_evals == old(self).staged_js_evals,
            final(self).staged_js_calls == old(self).staged_js_calls,
            final(self).staged_js_syntax == old(self).staged_js_syntax,
    {
        let n = self.objects.len();
        assert(addr - 1 < n as u64);
        let i = (addr - 1) as usize;
        self.objects.set(i, Some(o));
    }

    /// Models the native settings constructor.
    pub(crate) fn create_settings(&mut self) -> (addr: u64)
        ensures
            final(self).calls() == old(self).calls().push(CallView::CreateSettings { addr }),
            addr != 0 <==> old(self).create_succeeds(),
            addr != 0 ==> {
                &&& !old(self).live(addr)
                &&& final(self).obj(addr) == Some(ObjView::Settings {
                    developer_name: Seq::<u8>::empty(),
                    app_name: Seq::<u8>::empty(),
                    file_system_path: Seq::<u8>::empty(),
                    load_shaders: false,
                    force_cpu: false,
                })
                &&& final(self).allocated() == old(self).allocated() + 1
            },
            addr == 0 ==> {
                &&& final(self).allocated() == old(self).allocated()
                &&& final(self).objs_same(*old(self))
            },
            final(self).objs_same_except(*old(self), addr),
            !final(self).create_staged_to_fail(),
    {
        let addr = self.fresh_slot(ObjState::Settings {
            developer_name: Vec::new(),
            app_name: Vec::new(),
            file_system_path: Vec::new(),
            load_shaders: false,
            force_cpu: false,
        });
        self.record(NativeCall::CreateSettings { addr });
        addr
    }

    /// Models the native settings destructor.
    pub(crate) fn destroy_settings(&mut self, addr: u64)
        ensures
            final(self).calls() == old(self).calls().push(CallView::DestroySettings { addr }),
            final(self).obj(addr) is None,
            final(self).objs_same_except(*old(self), addr),
            final(self).allocated() == old(self).allocated(),
            final(self).create_staged_to_fail() == old(self).create_staged_to_fail(),
    {
        let _ = self.take_obj(addr);
        self.record(NativeCall::DestroySettings { addr });
    }

    /// Models the native setter for the developer name.
    pub(crate) fn settings_set_developer_name(&mut self, addr: u64, name: &[u8])
        requires
            old(self).obj(addr) matches Some(ObjView::Settings { .. }),
        ensures
            final(self).calls() == old(self).calls().push(CallView::SettingsSetDeveloperName { addr, name: name@ }),
            final(self).obj(addr) == match old(self).obj(addr) {
                Some(ObjView::Settings { developer_name, app_name, file_system_path, load_shaders, force_cpu }) =>
                    Some(ObjView::Settings { developer_name: name@, app_name, file_system_path, load_shaders, force_cpu }),
                other => other,
            },
            final(self).objs_same_except(*old(self), addr),
            final(self).allocated() == old(self).allocated(),
            final(self).create_staged_to_fail() == old(self).create_staged_to_fail(),
    {
        if let Some(ObjState::Settings { app_name, file_system_path, load_shaders, force_cpu, .. }) = self.take_obj(addr) {
            self.put_obj(addr, ObjState::Settings {
                developer_name: slice_to_vec(name),
                app_name,
                file_system_path,
                load_shaders,
                force_cpu,
            });
        }
        self.record(NativeCall::SettingsSetDeveloperName { addr, name: slice_to_vec(name) });
    }

    /// Models the native setter for the application name.
    pub(crate) fn settings_set_app_name(&mut self, addr: u64, name: &[u8])
        requires
            old(self).obj(addr) matches Some(ObjView::Settings { .. }),
        ensures
            final(self).calls() == old(self).calls().push(CallView::SettingsSetAppName { addr, name: name@ }),
            final(self).obj(addr) == match old(self).obj(addr) {
                Some(ObjView::Settings { developer_name, app_name, file_system_path, load_shaders, force_cpu }) =>
                    Some(ObjView::Settings { developer_name, app_name: name@, file_system_path, load_shaders, force_cpu }),
                other => other,
            },
            final(self).objs_same_except(*old(self), addr),
            final(self).allocated() == old(self).allocated(),
            final(self).create_staged_to_fail() == old(self).create_staged_to_fail(),
    {
        if let Some(ObjState::Settings { developer_name, file_system_path, load_shaders, force_cpu, .. }) = self.take_obj(addr) {
            self.put_obj(addr, ObjState::Settings {
                developer_name,
                app_name: slice_to_vec(name),
                file_system_path,
                load_shaders,
                force_cpu,
            });
        }
        self.record(NativeCall::SettingsSetAppName { addr, name: slice_to_vec(name) });
    }

    /// Models the native setter for the file-system root path.
    pub(crate) fn settings_set_file_system_path(&mut self, addr: u64, path: &[u8])
        requires
            old(self).obj(addr) matches Some(ObjView::Settings { .. }),
        ensures
            final(self).calls() == old(self).calls().push(CallView::SettingsSetFileSystemPath { addr, path: path@ }),
            final(self).obj(addr) == match old(self).obj(addr) {
                Some(ObjView::Settings { developer_name, app_name, file_system_path, load_shaders, force_cpu }) =>
                    Some(ObjView::Settings { developer_name, app_name, file_system_path: path@, load_shaders, force_cpu }),
                other => other,
            },
            final(self).objs_same_except(*old(self), addr),
            final(self).allocated() == old(self).allocated(),
            final(self).create_staged_to_fail() == old(self).create_staged_to_fail(),
    {
        if let Some(ObjState::Settings { developer_name, app_name, load_shaders, force_cpu, .. }) = self.take_obj(addr) {
            self.put_obj(addr, ObjState::Settings {
                developer_name,
                app_name,
                file_system_path: slice_to_vec(path),
                load_shaders,
                force_cpu,
            });
        }
        self.record(NativeCall::SettingsSetFileSystemPath { addr, path: slice_to_vec(path) });
    }

    /// Models the native switch for loading shaders from the file system.
    pub(crate) fn settings_set_load_shaders(&mut self, addr: u64, enabled: bool)
        requires
            old(self).obj(addr) matches Some(ObjView::Settings { .. }),
        ensures
            final(self).calls() == old(self).calls().push(CallView::SettingsSetLoadShadersFromFileSystem { addr, enabled }),
            final(self).obj(addr) == match old(self).obj(addr) {
                Some(ObjView::Settings { developer_name, app_name, file_system_path, load_shaders, force_cpu }) =>
                    Some(ObjView::Settings { developer_name, app_name, file_system_path, load_shaders: enabled, force_cpu }),
                other => other,
            },
            final(self).objs_same_except(*old(self), addr),
            final(self).allocated() == old(self).allocated(),
            final(self).create_staged_to_fail() == old(self).create_staged_to_fail(),
    {
        if let Some(ObjState::Settings { developer_name, app_name, file_system_path, force_cpu, .. }) = self.take_obj(addr) {
            self.put_obj(addr, ObjState::Settings {
                developer_name,
                app_name,
                file_system_path,
                load_shaders: enabled,
                force_cpu,
            });
        }
        self.record(NativeCall::SettingsSetLoadShadersFromFileSystem { addr, enabled });
    }

    /// Models the native switch forcing the CPU renderer.
    pub(crate) fn settings_set_force_cpu(&mut self, addr: u64, force_cpu: bool)
        requires
            old(self).obj(addr) matches Some(ObjView::Settings { .. }),
        ensures
            final(self).calls() == old(self).calls().push(CallView::SettingsSetForceCPURenderer { addr, force_cpu }),
            final(self).obj(addr) == match old(self).obj(addr) {
                Some(ObjView::Settings { developer_name, app_name, file_system_path, load_shaders, force_cpu: _ }) =>
                    Some(ObjView::Settings { developer_name, app_name, file_system_path, load_shaders, force_cpu }),
                other => other,
            },
            final(self).objs_same_except(*old(self), addr),
            final(self).allocated() == old(self).allocated(),
            final(self).create_staged_to_fail() == old(self).create_staged_to_fail(),
    {
        if let Some(ObjState::Settings { developer_name, app_name, file_system_path, load_shaders, .. }) = self.take_obj(addr) {
            self.put_obj(addr, ObjState::Settings {
                developer_name,
                app_name,
                file_system_path,
                load_shaders,
                force_cpu,
            });
        }
        self.record(NativeCall::SettingsSetForceCPURenderer { addr, force_cpu });
    }

    /// Put a display monitor into the modeled environment, as the platform
    /// would before the program starts. Not a call, so nothing is logged.
    pub fn stage_monitor(&mut self, width: u32, height: u32) -> (addr: u64)
        ensures
            addr != 0 <==> old(self).allocated() < usize::MAX as nat,
            addr != 0 ==> {
                &&& !old(self).live(addr)
                &&& final(self).obj(addr) == Some(ObjView::Monitor { width, height })
                &&& final(self).allocated() == old(self).allocated() + 1
            },
            addr == 0 ==> final(self).allocated() == old(self).allocated() && final(self).objs_same(*old(self)),
            final(self).objs_same_except(*old(self), addr),
            final(self).calls() == old(self).calls(),
            final(self).create_staged_to_fail() == old(self).create_staged_to_fail(),
    {
        self.grow_slot(ObjState::Monitor { width, height })
    }

    /// Models the native query for a monitor's width in pixels.
    pub(crate) fn monitor_width(&self, addr: u64) -> (r: u32)
        requires
            self.obj(addr) matches Some(ObjView::Monitor { .. }),
        ensures
            self.obj(addr) matches Some(ObjView::Monitor { width, .. }) && r == width,
    {
        match self.get_obj(addr) {
            Some(ObjState::Monitor { width, .. }) => *width,
            _ => 0,
        }
    }

    /// Models the native query for a monitor's height in pixels.
    pub(crate) fn monitor_height(&self, addr: u64) -> (r: u32)
        requires
            self.obj(addr) matches Some(ObjView::Monitor { .. }),
        ensures
            self.obj(addr) matches Some(ObjView::Monitor { height, .. }) && r == height,
    {
        match self.get_obj(addr) {
            Some(ObjState::Monitor { height, .. }) => *height,
            _ => 0,
        }
    }

    /// The window state a creation call with these arguments starts from.
    pub open spec fn window_initial(monitor: u64, width: u32, height: u32, fullscreen: bool, flags: u32) -> ObjView {
        ObjView::Window {
            monitor,
            width,
            height,
            fullscreen,
            flags,
            visible: flags & 16u32 == 0u32,
            title: Seq::<u8>::empty(),
            x: 0,
            y: 0,
            close_cb: false,
            resize_cb: false,
        }
    }

    /// Models the native window constructor. The hidden flag (bit 4) decides
    /// initial visibility; every other flag bit is carried through unchanged.
    pub(crate) fn create_window(&mut self, monitor: u64, width: u32, height: u32, fullscreen: bool, flags: u32) -> (addr: u64)
        ensures
            final(self).calls() == old(self).calls().push(CallView::CreateWindow { addr, monitor, width, height, fullscreen, flags }),
            addr != 0 <==> old(self).create_succeeds(),
            addr != 0 ==> {
                &&& !old(self).live(addr)
                &&& final(self).obj(addr) == Some(Self::window_initial(monitor, width, height, fullscreen, flags))
                &&& final(self).allocated() == old(self).allocated() + 1
            },
            addr == 0 ==> {
                &&& final(self).allocated() == old(self).allocated()
                &&& final(self).objs_same(*old(self))
            },
            final(self).objs_same_except(*old(self), addr),
            !final(self).create_staged_to_fail(),
    {
        let addr = self.fresh_slot(ObjState::Window {
            monitor,
            width,
            height,
            fullscreen,
            flags,
            visible: flags & 16 == 0,
            title: Vec::new(),
            x: 0,
            y: 0,
            close_cb: false,
            resize_cb: false,
        });
        self.record(NativeCall::CreateWindow { addr, monitor, width, height, fullscreen, flags });
        addr
    }

    /// Models the native window destructor.
    pub(crate) fn destroy_window(&mut self, addr: u64)
        ensures
            final(self).calls() == old(self).calls().push(CallView::DestroyWindow { addr }),
            final(self).obj(addr) is None,
            final(self).objs_same_except(*old(self), addr),
            final(self).allocated() == old(self).allocated(),
            final(self).create_staged_to_fail() == old(self).create_staged_to_fail(),
    {
        let _ = self.take_obj(addr);
        self.record(NativeCall::DestroyWindow { addr });
    }

    /// Models installing or clearing the native close-callback registration.
    pub(crate) fn window_set_close_callback(&mut self, addr: u64, installed: bool)
        requires
            old(self).obj(addr) matches Some(ObjView::Window { .. }),
        ensures
            final(self).calls() == old(self).calls().push(CallView::WindowSetCloseCallback { addr, installed }),
            final(self).obj(addr) == match old(self).obj(addr) {
                Some(ObjView::Window { monitor, width, height, fullscreen, flags, visible, title, x, y, close_cb: _, resize_cb }) =>
                    Some(ObjView::Window { monitor, width, height, fullscreen, flags, visible, title, x, y, close_cb: installed, resize_cb }),
                other => other,
            },
            final(self).objs_same_except(*old(self), addr),
            final(self).allocated() == old(self).allocated(),
            final(self).create_staged_to_fail() == old(self).create_staged_to_fail(),
    {
        if let Some(ObjState::Window { monitor, width, height, fullscreen, flags, visible, title, x, y, resize_cb, .. }) = self.take_obj(addr) {
            self.put_obj(addr, ObjState::Window { monitor, width, height, fullscreen, flags, visible, title, x, y, close_cb: installed, resize_cb });
        }
        self.record(NativeCall::WindowSetCloseCallback { addr, installed });
    }

    /// Models installing or clearing the native resize-callback registration.
    pub(crate) fn window_set_resize_callback(&mut self, addr: u64, installed: bool)
        requires
            old(self).obj(addr) matches Some(ObjView::Window { .. }),
        ensures
            final(self).calls() == old(self).calls().push(CallView::WindowSetResizeCallback { addr, installed }),
            final(self).obj(addr) == match old(self).obj(addr) {
                Some(ObjView::Window { monitor, width, height, fullscreen, flags, visible, title, x, y, close_cb, resize_cb: _ }) =>
                    Some(ObjView::Window { monitor, width, height, fullscreen, flags, visible, title, x, y, close_cb, resize_cb: installed }),
                other => other,
            },
            final(self).objs_same_except(*old(self), addr),
            final(self).allocated() == old(self).allocated(),
            final(self).create_staged_to_fail() == old(self).create_staged_to_fail(),
    {
        if let Some(ObjState::Window { monitor, width, height, fullscreen, flags, visible, title, x, y, close_cb, .. }) = self.take_obj(addr) {
            self.put_obj(addr, ObjState::Window { monitor, width, height, fullscreen, flags, visible, title, x, y, close_cb, resize_cb: installed });
        }
        self.record(NativeCall::WindowSetResizeCallback { addr, installed });
    }

    /// Models the native window-title setter.
    pub(crate) fn window_set_title(&mut self, addr: u64, title: &[u8])
        requires
            old(self).obj(addr) matches Some(ObjView::Window { .. }),
        ensures
            final(self).calls() == old(self).calls().push(CallView::WindowSetTitle { addr, title: title@ }),
            final(self).obj(addr) == match old(self).obj(addr) {
                Some(ObjView::Window { monitor, width, height, fullscreen, flags, visible, title: _, x, y, close_cb, resize_cb }) =>
                    Some(ObjView::Window { monitor, width, height, fullscreen, flags, visible, title: title@, x, y, close_cb, resize_cb }),
                other => other,
            },
            final(self).objs_same_except(*old(self), addr),
            final(self).allocated() == old(self).allocated(),
            final(self).create_staged_to_fail() == old(self).create_staged_to_fail(),
    {
        if let Some(ObjState::Window { monitor, width, height, fullscreen, flags, visible, x, y, close_cb, resize_cb, .. }) = self.take_obj(addr) {
            self.put_obj(addr, ObjState::Window { monitor, width, height, fullscreen, flags, visible, title: slice_to_vec(title), x, y, close_cb, resize_cb });
        }
        self.record(NativeCall::WindowSetTitle { addr, title: slice_to_vec(title) });
    }

    /// Models the native window move.
    pub(crate) fn window_move_to(&mut self, addr: u64, x: i32, y: i32)
        requires
            old(self).obj(addr) matches Some(ObjView::Window { .. }),
        ensures
            final(self).calls() == old(self).calls().push(CallView::WindowMoveTo { addr, x, y }),
            final(self).obj(addr) == match old(self).obj(addr) {
                Some(ObjView::Window { monitor, width, height, fullscreen, flags, visible, title, x: _, y: _, close_cb, resize_cb }) =>
                    Some(ObjView::Window { monitor, width, height, fullscreen, flags, visible, title, x, y, close_cb, resize_cb }),
                other => other,
            },
            final(self).objs_same_except(*old(self), addr),
            final(self).allocated() == old(self).allocated(),
            final(self).create_staged_to_fail() == old(self).create_staged_to_fail(),
    {
        if let Some(ObjState::Window { monitor, width, height, fullscreen, flags, visible, title, close_cb, resize_cb, .. }) = self.take_obj(addr) {
            self.put_obj(addr, ObjState::Window { monitor, width, height, fullscreen, flags, visible, title, x, y, close_cb, resize_cb });
        }
        self.record(NativeCall::WindowMoveTo { addr, x, y });
    }

    /// Where a window of the given size lands when centered on `monitor`.
    pub open spec fn centered_position(monitor: Option<ObjView>, w: u32, h: u32) -> (i32, i32) {
        match monitor {
            Some(ObjView::Monitor { width: mw, height: mh }) => (
                if mw >= w { (((mw - w) / 2) as i32) } else { 0i32 },
                if mh >= h { (((mh - h) / 2) as i32) } else { 0i32 },
            ),
            _ => (0i32, 0i32),
        }
    }

    /// Models the native centering move: the window is placed at the center
    /// of its monitor, clamped to the origin when it is larger than the
    /// monitor.
    pub(crate) fn window_move_to_center(&mut self, addr: u64)
        requires
            old(self).obj(addr) matches Some(ObjView::Window { .. }),
        ensures
            final(self).calls() == old(self).calls().push(CallView::WindowMoveToCenter { addr }),
            final(self).obj(addr) == match old(self).obj(addr) {
                Some(ObjView::Window { monitor, width, height, fullscreen, flags, visible, title, x: _, y: _, close_cb, resize_cb }) =>
                    Some(ObjView::Window {
                        monitor, width, height, fullscreen, flags, visible, title,
                        x: Self::centered_position(old(self).obj(monitor), width, height).0,
                        y: Self::centered_position(old(self).obj(monitor), width, height).1,
                        close_cb, resize_cb,
                    }),
                other => other,
            },
            final(self).objs_same_except(*old(self), addr),
            final(self).allocated() == old(self).allocated(),
            final(self).create_staged_to_fail() == old(self).create_staged_to_fail(),
    {
        if let Some(ObjState::Window { monitor, width, height, fullscreen, flags, visible, title, close_cb, resize_cb, .. }) = self.take_obj(addr) {
            let mut cx: i32 = 0;
            let mut cy: i32 = 0;
            if let Some(ObjState::Monitor { width: mw, height: mh }) = self.get_obj(monitor) {
                let mw = *mw;
                let mh = *mh;
                if mw >= width {
                    cx = ((mw - width) / 2) as i32;
                }
                if mh >= height {
                    cy = ((mh - height) / 2) as i32;
                }
            }
            self.put_obj(addr, ObjState::Window { monitor, width, height, fullscreen, flags, visible, title, x: cx, y: cy, close_cb, resize_cb });
        }
        self.record(NativeCall::WindowMoveToCenter { addr });
    }

    /// Models the native call that shows or hides a window.
    pub(crate) fn window_set_visible(&mut self, addr: u64, visible: bool)
        requires
            old(self).obj(addr) matches Some(ObjView::Window { .. }),
        ensures
            final(self).calls() == old(self).calls().push(
                if visible { CallView::WindowShow { addr } } else { CallView::WindowHide { addr } },
            ),
            final(self).obj(addr) == match old(self).obj(addr) {
                Some(ObjView::Window { monitor, width, height, fullscreen, flags, visible: _, title, x, y, close_cb, resize_cb }) =>
                    Some(ObjView::Window { monitor, width, height, fullscreen, flags, visible, title, x, y, close_cb, resize_cb }),
                other => other,
            },
            final(self).objs_same_except(*old(self), addr),
            final(self).allocated() == old(self).allocated(),
            final(self).create_staged_to_fail() == old(self).create_staged_to_fail(),
    {
        if let Some(ObjState::Window { monitor, width, height, fullscreen, flags, title, x, y, close_cb, resize_cb, .. }) = self.take_obj(addr) {
            self.put_obj(addr, ObjState::Window { monitor, width, height, fullscreen, flags, visible, title, x, y, close_cb, resize_cb });
        }
        if visible {
            self.record(NativeCall::WindowShow { addr });
        } else {
            self.record(NativeCall::WindowHide { addr });
        }
    }

    /// Models the native window-close request; the window stops being drawn
    /// but stays live until destroyed.
    pub(crate) fn window_close(&mut self, addr: u64)
        requires
            old(self).obj(addr) matches Some(ObjView::Window { .. }),
        ensures
            final(self).calls() == old(self).calls().push(CallView::WindowClose { addr }),
            final(self).obj(addr) == match old(self).obj(addr) {
                Some(ObjView::Window { monitor, width, height, fullscreen, flags, visible: _, title, x, y, close_cb, resize_cb }) =>
                    Some(ObjView::Window { monitor, width, height, fullscreen, flags, visible: false, title, x, y, close_cb, resize_cb }),
                other => other,
            },
            final(self).objs_same_except(*old(self), addr),
            final(self).allocated() == old(self).allocated(),
            final(self).create_staged_to_fail() == old(self).create_staged_to_fail(),
    {
        if let Some(ObjState::Window { monitor, width, height, fullscreen, flags, title, x, y, close_cb, resize_cb, .. }) = self.take_obj(addr) {
            self.put_obj(addr, ObjState::Window { monitor, width, height, fullscreen, flags, visible: false, title, x, y, close_cb, resize_cb });
        }
        self.record(NativeCall::WindowClose { addr });
    }

    /// Models the native queries on window state.
    pub(crate) fn window_width(&self, addr: u64) -> (r: u32)
        requires
            self.obj(addr) matches Some(ObjView::Window { .. }),
        ensures
            self.obj(addr) matches Some(ObjView::Window { width, .. }) && r == width,
    {
        match self.get_obj(addr) {
            Some(ObjState::Window { width, .. }) => *width,
            _ => 0,
        }
    }

    /// Models the native query for a window's height.
    pub(crate) fn window_height(&self, addr: u64) -> (r: u32)
        requires
            self.obj(addr) matches Some(ObjView::Window { .. }),
        ensures
            self.obj(addr) matches Some(ObjView::Window { height, .. }) && r == height,
    {
        match self.get_obj(addr) {
            Some(ObjState::Window { height, .. }) => *height,
            _ => 0,
        }
    }

    /// Models the native query for a window's fullscreen state.
    pub(crate) fn window_is_fullscreen(&self, addr: u64) -> (r: bool)
        requires
            self.obj(addr) matches Some(ObjView::Window { .. }),
        ensures
            self.obj(addr) matches Some(ObjView::Window { fullscreen, .. }) && r == fullscreen,
    {
        match self.get_obj(addr) {
            Some(ObjState::Window { fullscreen, .. }) => *fullscreen,
            _ => false,
        }
    }

    /// Models the native query for a window's visibility.
    pub(crate) fn window_is_visible(&self, addr: u64) -> (r: bool)
        requires
            self.obj(addr) matches Some(ObjView::Window { .. }),
        ensures
            self.obj(addr) matches Some(ObjView::Window { visible, .. }) && r == visible,
    {
        match self.get_obj(addr) {
            Some(ObjState::Window { visible, .. }) => *visible,
            _ => false,
        }
    }

    /// Models the native query for a window's x position.
    pub(crate) fn window_position_x(&self, addr: u64) -> (r: i32)
        requires
            self.obj(addr) matches Some(ObjView::Window { .. }),
        ensures
            self.obj(addr) matches Some(ObjView::Window { x, .. }) && r == x,
    {
        match self.get_obj(addr) {
            Some(ObjState::Window { x, .. }) => *x,
            _ => 0,
        }
    }

    /// Models the native query for a window's y position.
    pub(crate) fn window_position_y(&self, addr: u64) -> (r: i32)
        requires
            self.obj(addr) matches Some(ObjView::Window { .. }),
        ensures
            self.obj(addr) matches Some(ObjView::Window { y, .. }) && r == y,
    {
        match self.get_obj(addr) {
            Some(ObjState::Window { y, .. }) => *y,
            _ => 0,
        }
    }

    /// Models the native config constructor.
    pub(crate) fn create_config(&mut self) -> (addr: u64)
        ensures
            final(self).calls() == old(self).calls().push(CallView::CreateConfig { addr }),
            addr != 0 <==> old(self).create_succeeds(),
            addr != 0 ==> {
                &&& !old(self).live(addr)
                &&& final(self).obj(addr) == Some(ObjView::Config { cache_path: Seq::<u8>::empty(), user_stylesheet: Seq::<u8>::empty() })
                &&& final(self).allocated() == old(self).allocated() + 1
            },
            addr == 0 ==> {
                &&& final(self).allocated() == old(self).allocated()
                &&& final(self).objs_same(*old(self))
            },
            final(self).objs_same_except(*old(self), addr),
            !final(self).create_staged_to_fail(),
    {
        let addr = self.fresh_slot(ObjState::Config { cache_path: Vec::new(), user_stylesheet: Vec::new() });
        self.record(NativeCall::CreateConfig { addr });
        addr
    }

    /// Models the native config destructor.
    pub(crate) fn destroy_config(&mut self, addr: u64)
        ensures
            final(self).calls() == old(self).calls().push(CallView::DestroyConfig { addr }),
            final(self).obj(addr) is None,
            final(self).objs_same_except(*old(self), addr),
            final(self).allocated() == old(self).allocated(),
            final(self).create_staged_to_fail() == old(self).create_staged_to_fail(),
    {
        let _ = self.take_obj(addr);
        self.record(NativeCall::DestroyConfig { addr });
    }

    /// Models the native setter for the session cache path.
    pub(crate) fn config_set_cache_path(&mut self, addr: u64, path: &[u8])
        requires
            old(self).obj(addr) matches Some(ObjView::Config { .. }),
        ensures
            final(self).calls() == old(self).calls().push(CallView::ConfigSetCachePath { addr, path: path@ }),
            final(self).obj(addr) == match old(self).obj(addr) {
                Some(ObjView::Config { cache_path: _, user_stylesheet }) => Some(ObjView::Config { cache_path: path@, user_stylesheet }),
                other => other,
            },
            final(self).objs_same_except(*old(self), addr),
            final(self).allocated() == old(self).allocated(),
            final(self).create_staged_to_fail() == old(self).create_staged_to_fail(),
    {
        if let Some(ObjState::Config { user_stylesheet, .. }) = self.take_obj(addr) {
            self.put_obj(addr, ObjState::Config { cache_path: slice_to_vec(path), user_stylesheet });
        }
        self.record(NativeCall::ConfigSetCachePath { addr, path: slice_to_vec(path) });
    }

    /// Models the native setter for the global user stylesheet.
    pub(crate) fn config_set_user_stylesheet(&mut self, addr: u64, css: &[u8])
        requires
            old(self).obj(addr) matches Some(ObjView::Config { .. }),
        ensures
            final(self).calls() == old(self).calls().push(CallView::ConfigSetUserStylesheet { addr, css: css@ }),
            final(self).obj(addr) == match old(self).obj(addr) {
                Some(ObjView::Config { cache_path, user_stylesheet: _ }) => Some(ObjView::Config { cache_path, user_stylesheet: css@ }),
                other => other,
            },
            final(self).objs_same_except(*old(self), addr),
            final(self).allocated() == old(self).allocated(),
            final(self).create_staged_to_fail() == old(self).create_staged_to_fail(),
    {
        if let Some(ObjState::Config { cache_path, .. }) = self.take_obj(addr) {
            self.put_obj(addr, ObjState::Config { cache_path, user_stylesheet: slice_to_vec(css) });
        }
        self.record(NativeCall::ConfigSetUserStylesheet { addr, css: slice_to_vec(css) });
    }

    /// Models the native renderer constructor. The renderer comes with its
    /// default session.
    pub(crate) fn create_renderer(&mut self, config: u64) -> (r: (u64, u64))
        requires
            old(self).allocated() + 2 <= usize::MAX as nat,
        ensures
            final(self).calls() == old(self).calls().push(CallView::CreateRenderer { addr: r.0, config }),
            r.0 != 0 <==> !old(self).create_staged_to_fail(),
            r.0 != 0 ==> {
                &&& r.1 != 0
                &&& r.0 != r.1
                &&& !old(self).live(r.0)
                &&& !old(self).live(r.1)
                &&& final(self).obj(r.0) == Some(ObjView::Renderer { default_session: r.1 })
                &&& final(self).obj(r.1) == Some(ObjView::Session { renderer: r.0, is_persistent: false, name: Seq::<u8>::empty() })
                &&& final(self).allocated() == old(self).allocated() + 2
                &&& final(self).objs_same_except2(*old(self), r.0, r.1)
            },
            r.0 == 0 ==> {
                &&& final(self).allocated() == old(self).allocated()
                &&& final(self).objs_same(*old(self))
            },
            !final(self).create_staged_to_fail(),
    {
        if self.fail_next_create {
            self.fail_next_create = false;
            self.record(NativeCall::CreateRenderer { addr: 0, config });
            return (0, 0);
        }
        let ses = self.grow_slot(ObjState::Session { renderer: 0, is_persistent: false, name: Vec::new() });
        let ren = self.grow_slot(ObjState::Renderer { default_session: ses });
        self.put_obj(ses, ObjState::Session { renderer: ren, is_persistent: false, name: Vec::new() });
        self.record(NativeCall::CreateRenderer { addr: ren, config });
        (ren, ses)
    }

    /// Models the native renderer destructor.
    pub(crate) fn destroy_renderer(&mut self, addr: u64)
        ensures
            final(self).calls() == old(self).calls().push(CallView::DestroyRenderer { addr }),
            final(self).obj(addr) is None,
            final(self).objs_same_except(*old(self), addr),
            final(self).allocated() == old(self).allocated(),
            final(self).create_staged_to_fail() == old(self).create_staged_to_fail(),
    {
        let _ = self.take_obj(addr);
        self.record(NativeCall::DestroyRenderer { addr });
    }

    /// Models one native renderer command that carries no arguments.
    pub(crate) fn log_command(&mut self, c: NativeCall)
        requires
            c matches NativeCall::RendererUpdate { .. }
                || c matches NativeCall::RendererRender { .. }
                || c matches NativeCall::RendererPurgeMemory { .. }
                || c matches NativeCall::RendererLogMemoryUsage { .. }
                || c matches NativeCall::RendererRefreshDisplay { .. }
                || c matches NativeCall::RendererFireGamepadEvent { .. }
                || c matches NativeCall::RendererFireGamepadAxisEvent { .. }
                || c matches NativeCall::RendererFireGamepadButtonEvent { .. }
                || c matches NativeCall::RendererSetGamepadDetails { .. }
                || c matches NativeCall::EnablePlatformFontLoader
                || c matches NativeCall::EnablePlatformFileSystem { .. }
                || c matches NativeCall::EnableDefaultLogger { .. }
                || c matches NativeCall::ImageSourceInvalidate { .. },
        ensures
            final(self).calls() == old(self).calls().push(c@),
            final(self).objs_same(*old(self)),
            final(self).allocated() == old(self).allocated(),
            final(self).create_staged_to_fail() == old(self).create_staged_to_fail(),
    {
        self.record(c);
    }

    /// Models the native session constructor.
    pub(crate) fn create_session(&mut self, renderer: u64, is_persistent: bool, name: &[u8]) -> (addr: u64)
        ensures
            final(self).calls() == old(self).calls().push(CallView::CreateSession { addr, renderer, is_persistent, name: name@ }),
            addr != 0 <==> old(self).create_succeeds(),
            addr != 0 ==> {
                &&& !old(self).live(addr)
                &&& final(self).obj(addr) == Some(ObjView::Session { renderer, is_persistent, name: name@ })
                &&& final(self).allocated() == old(self).allocated() + 1
            },
            addr == 0 ==> {
                &&& final(self).allocated() == old(self).allocated()
                &&& final(self).objs_same(*old(self))
            },
            final(self).objs_same_except(*old(self), addr),
            !final(self).create_staged_to_fail(),
    {
        let addr = self.fresh_slot(ObjState::Session { renderer, is_persistent, name: slice_to_vec(name) });
        self.record(NativeCall::CreateSession { addr, renderer, is_persistent, name: slice_to_vec(name) });
        addr
    }

    /// Models the native session destructor.
    pub(crate) fn destroy_session(&mut self, addr: u64)
        ensures
            final(self).calls() == old(self).calls().push(CallView::DestroySession { addr }),
            final(self).obj(addr) is None,
            final(self).objs_same_except(*old(self), addr),
            final(self).allocated() == old(self).allocated(),
            final(self).create_staged_to_fail() == old(self).create_staged_to_fail(),
    {
        let _ = self.take_obj(addr);
        self.record(NativeCall::DestroySession { addr });
    }

    /// Models the native query for a session's persistence.
    pub(crate) fn session_is_persistent(&self, addr: u64) -> (r: bool)
        requires
            self.obj(addr) matches Some(ObjView::Session { .. }),
        ensures
            self.obj(addr) matches Some(ObjView::Session { is_persistent, .. }) && r == is_persistent,
    {
        match self.get_obj(addr) {
            Some(ObjState::Session { is_persistent, .. }) => *is_persistent,
            _ => false,
        }
    }

    /// Models the native query for a session's name.
    pub(crate) fn session_name(&self, addr: u64) -> (r: Vec<u8>)
        requires
            self.obj(addr) matches Some(ObjView::Session { .. }),
        ensures
            self.obj(addr) matches Some(ObjView::Session { name, .. }) && r@ == name,
    {
        match self.get_obj(addr) {
            Some(ObjState::Session { name, .. }) => slice_to_vec(name.as_slice()),
            _ => Vec::new(),
        }
    }

    /// Models the native query for a renderer's default session.
    pub(crate) fn renderer_default_session(&self, addr: u64) -> (r: u64)
        requires
            self.obj(addr) matches Some(ObjView::Renderer { .. }),
        ensures
            self.obj(addr) matches Some(ObjView::Renderer { default_session }) && r == default_session,
    {
        match self.get_obj(addr) {
            Some(ObjState::Renderer { default_session }) => *default_session,
            _ => 0,
        }
    }

    /// Models the native application constructor. The application comes with
    /// its main monitor, its renderer, and the renderer's default session;
    /// the returned tuple is their addresses in that order after the
    /// application's own.
    pub(crate) fn create_app(&mut self, settings: u64, config: u64) -> (r: (u64, u64, u64, u64))
        requires
            old(self).allocated() + 4 <= usize::MAX as nat,
        ensures
            final(self).calls() == old(self).calls().push(CallView::CreateApp { addr: r.0, settings, config }),
            r.0 != 0 <==> !old(self).create_staged_to_fail(),
            r.0 != 0 ==> {
                &&& r.1 != 0 && r.2 != 0 && r.3 != 0
                &&& r.0 != r.1 && r.0 != r.2 && r.0 != r.3 && r.1 != r.2 && r.1 != r.3 && r.2 != r.3
                &&& !old(self).live(r.0) && !old(self).live(r.1) && !old(self).live(r.2) && !old(self).live(r.3)
                &&& final(self).obj(r.0) == Some(ObjView::App { settings, config, monitor: r.1, renderer: r.2, running: false, update_cb: false })
                &&& final(self).obj(r.1) == Some(ObjView::Monitor { width: 0, height: 0 })
                &&& final(self).obj(r.2) == Some(ObjView::Renderer { default_session: r.3 })
                &&& final(self).obj(r.3) == Some(ObjView::Session { renderer: r.2, is_persistent: false, name: Seq::<u8>::empty() })
                &&& final(self).allocated() == old(self).allocated() + 4
                &&& final(self).objs_same_except4(*old(self), r.0, r.1, r.2, r.3)
            },
            r.0 == 0 ==> {
                &&& final(self).allocated() == old(self).allocated()
                &&& final(self).objs_same(*old(self))
            },
            !final(self).create_staged_to_fail(),
    {
        if self.fail_next_create {
            self.fail_next_create = false;
            self.record(NativeCall::CreateApp { addr: 0, settings, config });
            return (0, 0, 0, 0);
        }
        let ses = self.grow_slot(ObjState::Session { renderer: 0, is_persistent: false, name: Vec::new() });
        let ren = self.grow_slot(ObjState::Renderer { default_session: ses });
        self.put_obj(ses, ObjState::Session { renderer: ren, is_persistent: false, name: Vec::new() });
        let mon = self.grow_slot(ObjState::Monitor { width: 0, height: 0 });
        let app = self.grow_slot(ObjState::App { settings, config, monitor: mon, renderer: ren, running: false, update_cb: false });
        self.record(NativeCall::CreateApp { addr: app, settings, config });
        (app, mon, ren, ses)
    }

    /// Models the native application destructor.
    pub(crate) fn destroy_app(&mut self, addr: u64)
        ensures
            final(self).calls() == old(self).calls().push(CallView::DestroyApp { addr }),
            final(self).obj(addr) is None,
            final(self).objs_same_except(*old(self), addr),
            final(self).allocated() == old(self).allocated(),
            final(self).create_staged_to_fail() == old(self).create_staged_to_fail(),
    {
        let _ = self.take_obj(addr);
        self.record(NativeCall::DestroyApp { addr });
    }

    /// Models installing or clearing the native update-callback registration.
    pub(crate) fn app_set_update_callback(&mut self, addr: u64, installed: bool)
        requires
            old(self).obj(addr) matches Some(ObjView::App { .. }),
        ensures
            final(self).calls() == old(self).calls().push(CallView::AppSetUpdateCallback { addr, installed }),
            final(self).obj(addr) == match old(self).obj(addr) {
                Some(ObjView::App { settings, config, monitor, renderer, running, update_cb: _ }) =>
                    Some(ObjView::App { settings, config, monitor, renderer, running, update_cb: installed }),
                other => other,
            },
            final(self).objs_same_except(*old(self), addr),
            final(self).allocated() == old(self).allocated(),
            final(self).create_staged_to_fail() == old(self).create_staged_to_fail(),
    {
        if let Some(ObjState::App { settings, config, monitor, renderer, running, .. }) = self.take_obj(addr) {
            self.put_obj(addr, ObjState::App { settings, config, monitor, renderer, running, update_cb: installed });
        }
        self.record(NativeCall::AppSetUpdateCallback { addr, installed });
    }

    /// Models entering or leaving the native run loop.
    pub(crate) fn app_set_running(&mut self, addr: u64, running: bool)
        requires
            old(self).obj(addr) matches Some(ObjView::App { .. }),
        ensures
            final(self).calls() == old(self).calls().push(
                if running { CallView::AppRun { addr } } else { CallView::AppQuit { addr } },
            ),
            final(self).obj(addr) == match old(self).obj(addr) {
                Some(ObjView::App { settings, config, monitor, renderer, running: _, update_cb }) =>
                    Some(ObjView::App { settings, config, monitor, renderer, running, update_cb }),
                other => other,
            },
            final(self).objs_same_except(*old(self), addr),
            final(self).allocated() == old(self).allocated(),
            final(self).create_staged_to_fail() == old(self).create_staged_to_fail(),
    {
        if let Some(ObjState::App { settings, config, monitor, renderer, update_cb, .. }) = self.take_obj(addr) {
            self.put_obj(addr, ObjState::App { settings, config, monitor, renderer, running, update_cb });
        }
        if running {
            self.record(NativeCall::AppRun { addr });
        } else {
            self.record(NativeCall::AppQuit { addr });
        }
    }

    /// Models the native query for whether the application is running.
    pub(crate) fn app_is_running(&self, addr: u64) -> (r: bool)
        requires
            self.obj(addr) matches Some(ObjView::App { .. }),
        ensures
            self.obj(addr) matches Some(ObjView::App { running, .. }) && r == running,
    {
        match self.get_obj(addr) {
            Some(ObjState::App { running, .. }) => *running,
            _ => false,
        }
    }

    /// Models the native query for the application's main monitor.
    pub(crate) fn app_main_monitor(&self, addr: u64) -> (r: u64)
        requires
            self.obj(addr) matches Some(ObjView::App { .. }),
        ensures
            self.obj(addr) matches Some(ObjView::App { monitor, .. }) && r == monitor,
    {
        match self.get_obj(addr) {
            Some(ObjState::App { monitor, .. }) => *monitor,
            _ => 0,
        }
    }

    /// Models the native query for the application's renderer.
    pub(crate) fn app_renderer(&self, addr: u64) -> (r: u64)
        requires
            self.obj(addr) matches Some(ObjView::App { .. }),
        ensures
            self.obj(addr) matches Some(ObjView::App { renderer, .. }) && r == renderer,
    {
        match self.get_obj(addr) {
            Some(ObjState::App { renderer, .. }) => *renderer,
            _ => 0,
        }
    }

    /// Models the native string constructor from UTF-8 data.
    pub(crate) fn create_string(&mut self, bytes: &[u8]) -> (addr: u64)
        ensures
            final(self).calls() == old(self).calls().push(CallView::CreateString { addr }),
            addr != 0 <==> old(self).create_succeeds(),
            addr != 0 ==> {
                &&& !old(self).live(addr)
                &&& final(self).obj(addr) == Some(ObjView::UlString { bytes: bytes@ })
                &&& final(self).allocated() == old(self).allocated() + 1
            },
            addr == 0 ==> {
                &&& final(self).allocated() == old(self).allocated()
                &&& final(self).objs_same(*old(self))
            },
            final(self).objs_same_except(*old(self), addr),
            !final(self).create_staged_to_fail(),
    {
        let addr = self.fresh_slot(ObjState::UlString { bytes: slice_to_vec(bytes) });
        self.record(NativeCall::CreateString { addr });
        addr
    }

    /// Models the native string destructor.
    pub(crate) fn destroy_string(&mut self, addr: u64)
        ensures
            final(self).calls() == old(self).calls().push(CallView::DestroyString { addr }),
            final(self).obj(addr) is None,
            final(self).objs_same_except(*old(self), addr),
            final(self).allocated() == old(self).allocated(),
            final(self).create_staged_to_fail() == old(self).create_staged_to_fail(),
    {
        let _ = self.take_obj(addr);
        self.record(NativeCall::DestroyString { addr });
    }

    /// Models the native string assignment: the string at `addr` afterwards
    /// holds exactly `bytes`.
    pub(crate) fn string_assign(&mut self, addr: u64, bytes: &[u8])
        requires
            old(self).obj(addr) matches Some(ObjView::UlString { .. }),
        ensures
            final(self).calls() == old(self).calls().push(CallView::StringAssign { addr, bytes: bytes@ }),
            final(self).obj(addr) == match old(self).obj(addr) {
                Some(ObjView::UlString { .. }) => Some(ObjView::UlString { bytes: bytes@ }),
                other => other,
            },
            final(self).objs_same_except(*old(self), addr),
            final(self).allocated() == old(self).allocated(),
            final(self).create_staged_to_fail() == old(self).create_staged_to_fail(),
    {
        if let Some(ObjState::UlString { .. }) = self.take_obj(addr) {
            self.put_obj(addr, ObjState::UlString { bytes: slice_to_vec(bytes) });
        }
        self.record(NativeCall::StringAssign { addr, bytes: slice_to_vec(bytes) });
    }

    /// Models the native read of a string's UTF-8 contents.
    pub(crate) fn string_bytes(&self, addr: u64) -> (r: Vec<u8>)
        requires
            self.obj(addr) matches Some(ObjView::UlString { .. }),
        ensures
            self.obj(addr) matches Some(ObjView::UlString { bytes }) && r@ == bytes,
    {
        match self.get_obj(addr) {
            Some(ObjState::UlString { bytes }) => slice_to_vec(bytes.as_slice()),
            _ => Vec::new(),
        }
    }

    /// Models the native query for a string's length in bytes.
    pub(crate) fn string_length(&self, addr: u64) -> (r: usize)
        requires
            self.obj(addr) matches Some(ObjView::UlString { .. }),
        ensures
            self.obj(addr) matches Some(ObjView::UlString { bytes }) && r == bytes.len(),
    {
        match self.get_obj(addr) {
            Some(ObjState::UlString { bytes }) => bytes.len(),
            _ => 0,
        }
    }

    /// Put a CPU surface into the modeled environment, as a view's creation
    /// would. Not a call, so nothing is logged. The pixel buffer holds
    /// `row_bytes * height` zero bytes.
    pub fn stage_surface(&mut self, width: u32, height: u32, row_bytes: u32) -> (addr: u64)
        requires
            (row_bytes as nat) * (height as nat) <= u32::MAX as nat,
        ensures
            addr != 0 <==> old(self).allocated() < usize::MAX as nat,
            addr != 0 ==> {
                &&& !old(self).live(addr)
                &&& final(self).obj(addr) == Some(ObjView::Surface {
                    width,
                    height,
                    row_bytes,
                    pixels: Seq::new((row_bytes as nat) * (height as nat), |i: int| 0u8),
                    locked: false,
                    dirty: (0i32, 0i32, 0i32, 0i32),
                })
                &&& final(self).allocated() == old(self).allocated() + 1
            },
            addr == 0 ==> final(self).allocated() == old(self).allocated() && final(self).objs_same(*old(self)),
            final(self).objs_same_except(*old(self), addr),
            final(self).calls() == old(self).calls(),
            final(self).create_staged_to_fail() == old(self).create_staged_to_fail(),
    {
        let n = (row_bytes as u64) * (height as u64);
        let buf: Vec<u8> = zero_vec(n as usize);
        proof {
            assert(buf@ =~= Seq::new((row_bytes as nat) * (height as nat), |i: int| 0u8));
        }
        self.grow_slot(ObjState::Surface {
            width,
            height,
            row_bytes,
            pixels: buf,
            locked: false,
            dirty: (0, 0, 0, 0),
        })
    }

    /// Models the native pixel lock. The native layer hands back null (and
    /// this returns `false`) exactly when the surface is already locked: the
    /// lock is not reentrant.
    pub(crate) fn surface_lock_pixels(&mut self, addr: u64) -> (ok: bool)
        requires
            old(self).obj(addr) matches Some(ObjView::Surface { .. }),
        ensures
            final(self).calls() == old(self).calls().push(CallView::SurfaceLockPixels { addr, ok }),
            old(self).obj(addr) matches Some(ObjView::Surface { locked, .. }) && ok == !locked,
            final(self).obj(addr) == match old(self).obj(addr) {
                Some(ObjView::Surface { width, height, row_bytes, pixels, locked: _, dirty }) =>
                    Some(ObjView::Surface { width, height, row_bytes, pixels, locked: true, dirty }),
                other => other,
            },
            final(self).objs_same_except(*old(self), addr),
            final(self).allocated() == old(self).allocated(),
            final(self).create_staged_to_fail() == old(self).create_staged_to_fail(),
    {
        let mut ok = false;
        if let Some(ObjState::Surface { width, height, row_bytes, pixels, locked, dirty }) = self.take_obj(addr) {
            ok = !locked;
            self.put_obj(addr, ObjState::Surface { width, height, row_bytes, pixels, locked: true, dirty });
        }
        self.record(NativeCall::SurfaceLockPixels { addr, ok });
        ok
    }

    /// Models the native pixel unlock.
    pub(crate) fn surface_unlock_pixels(&mut self, addr: u64)
        requires
            old(self).obj(addr) matches Some(ObjView::Surface { .. }),
        ensures
            final(self).calls() == old(self).calls().push(CallView::SurfaceUnlockPixels { addr }),
            final(self).obj(addr) == match old(self).obj(addr) {
                Some(ObjView::Surface { width, height, row_bytes, pixels, locked: _, dirty }) =>
                    Some(ObjView::Surface { width, height, row_bytes, pixels, locked: false, dirty }),
                other => other,
            },
            final(self).objs_same_except(*old(self), addr),
            final(self).allocated() == old(self).allocated(),
            final(self).create_staged_to_fail() == old(self).create_staged_to_fail(),
    {
        if let Some(ObjState::Surface { width, height, row_bytes, pixels, dirty, .. }) = self.take_obj(addr) {
            self.put_obj(addr, ObjState::Surface { width, height, row_bytes, pixels, locked: false, dirty });
        }
        self.record(NativeCall::SurfaceUnlockPixels { addr });
    }

    /// Models the native queries on surface geometry.
    pub(crate) fn surface_width(&self, addr: u64) -> (r: u32)
        requires
            self.obj(addr) matches Some(ObjView::Surface { .. }),
        ensures
            self.obj(addr) matches Some(ObjView::Surface { width, .. }) && r == width,
    {
        match self.get_obj(addr) {
            Some(ObjState::Surface { width, .. }) => *width,
            _ => 0,
        }
    }

    /// Models the native query for a surface's height.
    pub(crate) fn surface_height(&self, addr: u64) -> (r: u32)
        requires
            self.obj(addr) matches Some(ObjView::Surface { .. }),
        ensures
            self.obj(addr) matches Some(ObjView::Surface { height, .. }) && r == height,
    {
        match self.get_obj(addr) {
            Some(ObjState::Surface { height, .. }) => *height,
            _ => 0,
        }
    }

    /// Models the native query for a surface's bytes per row.
    pub(crate) fn surface_row_bytes(&self, addr: u64) -> (r: u32)
        requires
            self.obj(addr) matches Some(ObjView::Surface { .. }),
        ensures
            self.obj(addr) matches Some(ObjView::Surface { row_bytes, .. }) && r == row_bytes,
    {
        match self.get_obj(addr) {
            Some(ObjState::Surface { row_bytes, .. }) => *row_bytes,
            _ => 0,
        }
    }

    /// Models the native query for a surface's pixel-buffer size.
    pub(crate) fn surface_size(&self, addr: u64) -> (r: usize)
        requires
            self.obj(addr) matches Some(ObjView::Surface { .. }),
        ensures
            self.obj(addr) matches Some(ObjView::Surface { pixels, .. }) && r == pixels.len(),
    {
        match self.get_obj(addr) {
            Some(ObjState::Surface { pixels, .. }) => pixels.len(),
            _ => 0,
        }
    }

    /// Models the native query for a surface's dirty bounds.
    pub(crate) fn surface_dirty_bounds(&self, addr: u64) -> (r: (i32, i32, i32, i32))
        requires
            self.obj(addr) matches Some(ObjView::Surface { .. }),
        ensures
            self.obj(addr) matches Some(ObjView::Surface { dirty, .. }) && r == dirty,
    {
        match self.get_obj(addr) {
            Some(ObjState::Surface { dirty, .. }) => *dirty,
            _ => (0, 0, 0, 0),
        }
    }

    /// Read of the locked pixel buffer through the handed-out pointer. Only
    /// legal while the surface is locked.
    pub(crate) fn surface_pixels(&self, addr: u64) -> (r: Vec<u8>)
        requires
            self.obj(addr) matches Some(ObjView::Surface { locked: true, .. }),
        ensures
            self.obj(addr) matches Some(ObjView::Surface { pixels, .. }) && r@ == pixels,
    {
        match self.get_obj(addr) {
            Some(ObjState::Surface { pixels, .. }) => slice_to_vec(pixels.as_slice()),
            _ => Vec::new(),
        }
    }

    /// Write one byte of the locked pixel buffer through the handed-out
    /// pointer. Only legal while the surface is locked. Direct memory
    /// access, so nothing is logged.
    pub(crate) fn surface_write_pixel(&mut self, addr: u64, index: usize, value: u8)
        requires
            old(self).obj(addr) matches Some(ObjView::Surface { locked: true, .. }),
            old(self).obj(addr) matches Some(ObjView::Surface { pixels, .. }) && index < pixels.len(),
        ensures
            final(self).calls() == old(self).calls(),
            final(self).obj(addr) == match old(self).obj(addr) {
                Some(ObjView::Surface { width, height, row_bytes, pixels, locked, dirty }) =>
                    Some(ObjView::Surface { width, height, row_bytes, pixels: pixels.update(index as int, value), locked, dirty }),
                other => other,
            },
            final(self).objs_same_except(*old(self), addr),
            final(self).allocated() == old(self).allocated(),
            final(self).create_staged_to_fail() == old(self).create_staged_to_fail(),
    {
        if let Some(ObjState::Surface { width, height, row_bytes, mut pixels, locked, dirty }) = self.take_obj(addr) {
            if index < pixels.len() {
                pixels.set(index, value);
            }
            self.put_obj(addr, ObjState::Surface { width, height, row_bytes, pixels, locked, dirty });
        }
    }

    /// Models the native surface resize: the buffer is reallocated to
    /// four bytes per pixel and zeroed.
    pub(crate) fn surface_resize(&mut self, addr: u64, width: u32, height: u32)
        requires
            old(self).obj(addr) matches Some(ObjView::Surface { .. }),
            (width as nat) * 4 <= u32::MAX as nat,
            (width as nat) * 4 * (height as nat) <= u32::MAX as nat,
        ensures
            final(self).calls() == old(self).calls().push(CallView::SurfaceResize { addr, width, height }),
            final(self).obj(addr) == match old(self).obj(addr) {
                Some(ObjView::Surface { width: _, height: _, row_bytes: _, pixels: _, locked, dirty }) =>
                    Some(ObjView::Surface {
                        width,
                        height,
                        row_bytes: (width * 4) as u32,
                        pixels: Seq::new((width as nat) * 4 * (height as nat), |i: int| 0u8),
                        locked,
                        dirty,
                    }),
                other => other,
            },
            final(self).objs_same_except(*old(self), addr),
            final(self).allocated() == old(self).allocated(),
            final(self).create_staged_to_fail() == old(self).create_staged_to_fail(),
    {
        if let Some(ObjState::Surface { locked, dirty, .. }) = self.take_obj(addr) {
            let n = (width as u64) * 4 * (height as u64);
            let buf: Vec<u8> = zero_vec(n as usize);
            proof {
                assert(buf@ =~= Seq::new((width as nat) * 4 * (height as nat), |i: int| 0u8));
            }
            let rb = (width as u64) * 4;
            self.put_obj(addr, ObjState::Surface {
                width,
                height,
                row_bytes: rb as u32,
                pixels: buf,
                locked,
                dirty,
            });
        }
        self.record(NativeCall::SurfaceResize { addr, width, height });
    }

    /// Models the native setter for a surface's dirty bounds.
    pub(crate) fn surface_set_dirty_bounds(&mut self, addr: u64, bounds: (i32, i32, i32, i32))
        requires
            old(self).obj(addr) matches Some(ObjView::Surface { .. }),
        ensures
            final(self).calls() == old(self).calls().push(CallView::SurfaceSetDirtyBounds {
                addr, left: bounds.0, top: bounds.1, right: bounds.2, bottom: bounds.3,
            }),
            final(self).obj(addr) == match old(self).obj(addr) {
                Some(ObjView::Surface { width, height, row_bytes, pixels, locked, dirty: _ }) =>
                    Some(ObjView::Surface { width, height, row_bytes, pixels, locked, dirty: bounds }),
                other => other,
            },
            final(self).objs_same_except(*old(self), addr),
            final(self).allocated() == old(self).allocated(),
            final(self).create_staged_to_fail() == old(self).create_staged_to_fail(),
    {
        if let Some(ObjState::Surface { width, height, row_bytes, pixels, locked, .. }) = self.take_obj(addr) {
            self.put_obj(addr, ObjState::Surface { width, height, row_bytes, pixels, locked, dirty: bounds });
        }
        self.record(NativeCall::SurfaceSetDirtyBounds { addr, left: bounds.0, top: bounds.1, right: bounds.2, bottom: bounds.3 });
    }

    /// Models the native reset of a surface's dirty bounds to empty.
    pub(crate) fn surface_clear_dirty_bounds(&mut self, addr: u64)
        requires
            old(self).obj(addr) matches Some(ObjView::Surface { .. }),
        ensures
            final(self).calls() == old(self).calls().push(CallView::SurfaceClearDirtyBounds { addr }),
            final(self).obj(addr) == match old(self).obj(addr) {
                Some(ObjView::Surface { width, height, row_bytes, pixels, locked, dirty: _ }) =>
                    Some(ObjView::Surface { width, height, row_bytes, pixels, locked, dirty: (0i32, 0i32, 0i32, 0i32) }),
                other => other,
            },
            final(self).objs_same_except(*old(self), addr),
            final(self).allocated() == old(self).allocated(),
            final(self).create_staged_to_fail() == old(self).create_staged_to_fail(),
    {
        if let Some(ObjState::Surface { width, height, row_bytes, pixels, locked, .. }) = self.take_obj(addr) {
            self.put_obj(addr, ObjState::Surface { width, height, row_bytes, pixels, locked, dirty: (0, 0, 0, 0) });
        }
        self.record(NativeCall::SurfaceClearDirtyBounds { addr });
    }

    /// Models the native bitmap constructor: `width * height` pixels in the
    /// given format, zeroed.
    pub(crate) fn create_bitmap(&mut self, width: u32, height: u32, format: u32) -> (addr: u64)
        requires
            format <= 1,
            (width as nat) * (height as nat) * format_bpp(format) <= u32::MAX as nat,
            (width as nat) * format_bpp(format) <= u32::MAX as nat,
        ensures
            final(self).calls() == old(self).calls().push(CallView::CreateBitmap { addr, width, height, format }),
            addr != 0 <==> old(self).create_succeeds(),
            addr != 0 ==> {
                &&& !old(self).live(addr)
                &&& final(self).obj(addr) == Some(ObjView::Bitmap {
                    width,
                    height,
                    format,
                    row_bytes: ((width as nat) * format_bpp(format)) as u32,
                    pixels: Seq::new((width as nat) * (height as nat) * format_bpp(format), |i: int| 0u8),
                    locked: false,
                    owns_pixels: true,
                })
                &&& final(self).allocated() == old(self).allocated() + 1
            },
            addr == 0 ==> {
                &&& final(self).allocated() == old(self).allocated()
                &&& final(self).objs_same(*old(self))
            },
            final(self).objs_same_except(*old(self), addr),
            !final(self).create_staged_to_fail(),
    {
        let bpp: u64 = if format == 0 { 1 } else { 4 };
        let n = (width as u64) * (height as u64) * bpp;
        let buf: Vec<u8> = zero_vec(n as usize);
        proof {
            assert(buf@ =~= Seq::new((width as nat) * (height as nat) * format_bpp(format), |i: int| 0u8));
        }
        let rb = (width as u64) * bpp;
        let addr = self.fresh_slot(ObjState::Bitmap {
            width,
            height,
            format,
            row_bytes: rb as u32,
            pixels: buf,
            locked: false,
            owns_pixels: true,
        });
        self.record(NativeCall::CreateBitmap { addr, width, height, format });
        addr
    }

    /// Models the native bitmap constructor from existing pixel data.
    pub(crate) fn create_bitmap_from_pixels(&mut self, width: u32, height: u32, format: u32, row_bytes: u32, data: &[u8]) -> (addr: u64)
        ensures
            final(self).calls() == old(self).calls().push(CallView::CreateBitmap { addr, width, height, format }),
            addr != 0 <==> old(self).create_succeeds(),
            addr != 0 ==> {
                &&& !old(self).live(addr)
                &&& final(self).obj(addr) == Some(ObjView::Bitmap {
                    width,
                    height,
                    format,
                    row_bytes,
                    pixels: data@,
                    locked: false,
                    owns_pixels: true,
                })
                &&& final(self).allocated() == old(self).allocated() + 1
            },
            addr == 0 ==> {
                &&& final(self).allocated() == old(self).allocated()
                &&& final(self).objs_same(*old(self))
            },
            final(self).objs_same_except(*old(self), addr),
            !final(self).create_staged_to_fail(),
    {
        let addr = self.fresh_slot(ObjState::Bitmap {
            width,
            height,
            format,
            row_bytes,
            pixels: slice_to_vec(data),
            locked: false,
            owns_pixels: true,
        });
        self.record(NativeCall::CreateBitmap { addr, width, height, format });
        addr
    }

    /// Models the native bitmap destructor.
    pub(crate) fn destroy_bitmap(&mut self, addr: u64)
        ensures
            final(self).calls() == old(self).calls().push(CallView::DestroyBitmap { addr }),
            final(self).obj(addr) is None,
            final(self).objs_same_except(*old(self), addr),
            final(self).allocated() == old(self).allocated(),
            final(self).create_staged_to_fail() == old(self).create_staged_to_fail(),
    {
        let _ = self.take_obj(addr);
        self.record(NativeCall::DestroyBitmap { addr });
    }

    /// Models the native queries on bitmap state.
    pub(crate) fn bitmap_geometry(&self, addr: u64) -> (r: (u32, u32, u32, u32))
        requires
            self.obj(addr) matches Some(ObjView::Bitmap { .. }),
        ensures
            self.obj(addr) matches Some(ObjView::Bitmap { width, height, format, row_bytes, .. })
                && r == (width, height, format, row_bytes),
    {
        match self.get_obj(addr) {
            Some(ObjState::Bitmap { width, height, format, row_bytes, .. }) => (*width, *height, *format, *row_bytes),
            _ => (0, 0, 0, 0),
        }
    }

    /// Models the native query for a bitmap's pixel-buffer size.
    pub(crate) fn bitmap_size(&self, addr: u64) -> (r: usize)
        requires
            self.obj(addr) matches Some(ObjView::Bitmap { .. }),
        ensures
            self.obj(addr) matches Some(ObjView::Bitmap { pixels, .. }) && r == pixels.len(),
    {
        match self.get_obj(addr) {
            Some(ObjState::Bitmap { pixels, .. }) => pixels.len(),
            _ => 0,
        }
    }

    /// Models the native query for whether the bitmap owns its buffer.
    pub(crate) fn bitmap_owns_pixels(&self, addr: u64) -> (r: bool)
        requires
            self.obj(addr) matches Some(ObjView::Bitmap { .. }),
        ensures
            self.obj(addr) matches Some(ObjView::Bitmap { owns_pixels, .. }) && r == owns_pixels,
    {
        match self.get_obj(addr) {
            Some(ObjState::Bitmap { owns_pixels, .. }) => *owns_pixels,
            _ => false,
        }
    }

    /// Models the native bitmap pixel lock; null (`false`) exactly when the
    /// bitmap is already locked.
    pub(crate) fn bitmap_lock_pixels(&mut self, addr: u64) -> (ok: bool)
        requires
            old(self).obj(addr) matches Some(ObjView::Bitmap { .. }),
        ensures
            final(self).calls() == old(self).calls().push(CallView::BitmapLockPixels { addr, ok }),
            old(self).obj(addr) matches Some(ObjView::Bitmap { locked, .. }) && ok == !locked,
            final(self).obj(addr) == match old(self).obj(addr) {
                Some(ObjView::Bitmap { width, height, format, row_bytes, pixels, locked: _, owns_pixels }) =>
                    Some(ObjView::Bitmap { width, height, format, row_bytes, pixels, locked: true, owns_pixels }),
                other => other,
            },
            final(self).objs_same_except(*old(self), addr),
            final(self).allocated() == old(self).allocated(),
            final(self).create_staged_to_fail() == old(self).create_staged_to_fail(),
    {
        let mut ok = false;
        if let Some(ObjState::Bitmap { width, height, format, row_bytes, pixels, locked, owns_pixels }) = self.take_obj(addr) {
            ok = !locked;
            self.put_obj(addr, ObjState::Bitmap { width, height, format, row_bytes, pixels, locked: true, owns_pixels });
        }
        self.record(NativeCall::BitmapLockPixels { addr, ok });
        ok
    }

    /// Models the native bitmap pixel unlock.
    pub(crate) fn bitmap_unlock_pixels(&mut self, addr: u64)
        requires
            old(self).obj(addr) matches Some(ObjView::Bitmap { .. }),
        ensures
            final(self).calls() == old(self).calls().push(CallView::BitmapUnlockPixels { addr }),
            final(self).obj(addr) == match old(self).obj(addr) {
                Some(ObjView::Bitmap { width, height, format, row_bytes, pixels, locked: _, owns_pixels }) =>
                    Some(ObjView::Bitmap { width, height, format, row_bytes, pixels, locked: false, owns_pixels }),
                other => other,
            },
            final(self).objs_same_except(*old(self), addr),
            final(self).allocated() == old(self).allocated(),
            final(self).create_staged_to_fail() == old(self).create_staged_to_fail(),
    {
        if let Some(ObjState::Bitmap { width, height, format, row_bytes, pixels, owns_pixels, .. }) = self.take_obj(addr) {
            self.put_obj(addr, ObjState::Bitmap { width, height, format, row_bytes, pixels, locked: false, owns_pixels });
        }
        self.record(NativeCall::BitmapUnlockPixels { addr });
    }

    /// Read of the locked bitmap buffer through the handed-out pointer.
    /// Only legal while the bitmap is locked.
    pub(crate) fn bitmap_pixels(&self, addr: u64) -> (r: Vec<u8>)
        requires
            self.obj(addr) matches Some(ObjView::Bitmap { locked: true, .. }),
        ensures
            self.obj(addr) matches Some(ObjView::Bitmap { pixels, .. }) && r@ == pixels,
    {
        match self.get_obj(addr) {
            Some(ObjState::Bitmap { pixels, .. }) => slice_to_vec(pixels.as_slice()),
            _ => Vec::new(),
        }
    }

    /// Write one byte of the locked bitmap buffer through the handed-out
    /// pointer. Only legal while the bitmap is locked; direct memory access,
    /// so nothing is logged.
    pub(crate) fn bitmap_write_pixel(&mut self, addr: u64, index: usize, value: u8)
        requires
            old(self).obj(addr) matches Some(ObjView::Bitmap { locked: true, .. }),
            old(self).obj(addr) matches Some(ObjView::Bitmap { pixels, .. }) && index < pixels.len(),
        ensures
            final(self).calls() == old(self).calls(),
            final(self).obj(addr) == match old(self).obj(addr) {
                Some(ObjView::Bitmap { width, height, format, row_bytes, pixels, locked, owns_pixels }) =>
                    Some(ObjView::Bitmap { width, height, format, row_bytes, pixels: pixels.update(index as int, value), locked, owns_pixels }),
                other => other,
            },
            final(self).objs_same_except(*old(self), addr),
            final(self).allocated() == old(self).allocated(),
            final(self).create_staged_to_fail() == old(self).create_staged_to_fail(),
    {
        if let Some(ObjState::Bitmap { width, height, format, row_bytes, mut pixels, locked, owns_pixels }) = self.take_obj(addr) {
            if index < pixels.len() {
                pixels.set(index, value);
            }
            self.put_obj(addr, ObjState::Bitmap { width, height, format, row_bytes, pixels, locked, owns_pixels });
        }
    }

    /// Models the native erase: every pixel byte is reset to zero.
    pub(crate) fn bitmap_erase(&mut self, addr: u64)
        requires
            old(self).obj(addr) matches Some(ObjView::Bitmap { .. }),
        ensures
            final(self).calls() == old(self).calls().push(CallView::BitmapErase { addr }),
            final(self).obj(addr) == match old(self).obj(addr) {
                Some(ObjView::Bitmap { width, height, format, row_bytes, pixels, locked, owns_pixels }) =>
                    Some(ObjView::Bitmap {
                        width, height, format, row_bytes,
                        pixels: Seq::new(pixels.len(), |i: int| 0u8),
                        locked, owns_pixels,
                    }),
                other => other,
            },
            final(self).objs_same_except(*old(self), addr),
            final(self).allocated() == old(self).allocated(),
            final(self).create_staged_to_fail() == old(self).create_staged_to_fail(),
    {
        if let Some(ObjState::Bitmap { width, height, format, row_bytes, pixels, locked, owns_pixels }) = self.take_obj(addr) {
            let buf = zero_vec(pixels.len());
            self.put_obj(addr, ObjState::Bitmap { width, height, format, row_bytes, pixels: buf, locked, owns_pixels });
        }
        self.record(NativeCall::BitmapErase { addr });
    }

    /// Models the native red/blue channel swap on a BGRA bitmap: within
    /// every four-byte pixel, bytes 0 and 2 trade places.
    pub(crate) fn bitmap_swap_red_blue(&mut self, addr: u64)
        requires
            old(self).obj(addr) matches Some(ObjView::Bitmap { pixels, .. }) && pixels.len() % 4 == 0,
        ensures
            final(self).calls() == old(self).calls().push(CallView::BitmapSwapRedBlue { addr }),
            final(self).obj(addr) == match old(self).obj(addr) {
                Some(ObjView::Bitmap { width, height, format, row_bytes, pixels, locked, owns_pixels }) =>
                    Some(ObjView::Bitmap { width, height, format, row_bytes, pixels: bgra_swapped(pixels), locked, owns_pixels }),
                other => other,
            },
            final(self).objs_same_except(*old(self), addr),
            final(self).allocated() == old(self).allocated(),
            final(self).create_staged_to_fail() == old(self).create_staged_to_fail(),
    {
        if let Some(ObjState::Bitmap { width, height, format, row_bytes, mut pixels, locked, owns_pixels }) = self.take_obj(addr) {
            let ghost orig = pixels@;
            let n = pixels.len();
            let mut k: usize = 0;
            while k + 3 < n
                invariant
                    n == pixels@.len(),
                    n == orig.len(),
                    n % 4 == 0,
                    k % 4 == 0,
                    k <= n,
                    forall|i: int| 0 <= i < k ==> pixels@[i] == bgra_swapped(orig)[i],
                    forall|i: int| k <= i < n ==> pixels@[i] == orig[i],
                decreases n - k,
            {
                let b = pixels[k];
                let r = pixels[k + 2];
                pixels.set(k, r);
                pixels.set(k + 2, b);
                k = k + 4;
            }
            proof {
                assert(pixels@ =~= bgra_swapped(orig));
            }
            self.put_obj(addr, ObjState::Bitmap { width, height, format, row_bytes, pixels, locked, owns_pixels });
        }
        self.record(NativeCall::BitmapSwapRedBlue { addr });
    }

    /// Stage the outcome of the next script evaluation: success with a
    /// result string, or an exception with its text. Not a call, so nothing
    /// is logged.
    pub fn stage_view_eval(&mut self, ok: bool, text: &[u8])
        ensures
            final(self).view_eval_queue() == old(self).view_eval_queue().push((ok, text@)),
            final(self).calls() == old(self).calls(),
            final(self).objs_same(*old(self)),
            final(self).allocated() == old(self).allocated(),
            final(self).create_staged_to_fail() == old(self).create_staged_to_fail(),
    {
        self.staged_view_evals.push((ok, slice_to_vec(text)));
        proof {
            assert(final(self).view_eval_queue() =~= old(self).view_eval_queue().push((ok, text@)));
        }
    }

    /// The initial state of a freshly created view.
    pub open spec fn view_initial(renderer: u64, width: u32, height: u32, surface: u64, js_ctx: u64) -> ObjView {
        ObjView::View {
            renderer,
            width,
            height,
            url: Seq::<u8>::empty(),
            title: Seq::<u8>::empty(),
            needs_paint: false,
            surface,
            js_ctx,
            js_locked: false,
            callbacks: 0,
            focused: false,
        }
    }

    /// Models the native view constructor. The view comes with its CPU
    /// surface and its JavaScript context (whose global object exists from
    /// the start); the returned tuple holds their addresses after the
    /// view's own.
    pub(crate) fn create_view(&mut self, renderer: u64, width: u32, height: u32, view_config: u64, session: u64) -> (r: (u64, u64, u64, u64))
        requires
            old(self).allocated() + 4 <= usize::MAX as nat,
            (width as nat) * 4 <= u32::MAX as nat,
            (width as nat) * 4 * (height as nat) <= u32::MAX as nat,
        ensures
            final(self).calls() == old(self).calls().push(CallView::CreateView { addr: r.0, renderer, width, height, view_config, session }),
            r.0 != 0 <==> !old(self).create_staged_to_fail(),
            r.0 != 0 ==> {
                &&& r.1 != 0 && r.2 != 0 && r.3 != 0
                &&& r.0 != r.1 && r.0 != r.2 && r.0 != r.3 && r.1 != r.2 && r.1 != r.3 && r.2 != r.3
                &&& !old(self).live(r.0) && !old(self).live(r.1) && !old(self).live(r.2) && !old(self).live(r.3)
                &&& final(self).obj(r.0) == Some(Self::view_initial(renderer, width, height, r.1, r.2))
                &&& final(self).obj(r.1) == Some(ObjView::Surface {
                    width,
                    height,
                    row_bytes: ((width as nat) * 4) as u32,
                    pixels: Seq::new((width as nat) * 4 * (height as nat), |i: int| 0u8),
                    locked: false,
                    dirty: (0i32, 0i32, 0i32, 0i32),
                })
                &&& final(self).obj(r.2) == Some(ObjView::JsContext { group: 0, global_object: r.3, name: Seq::<u8>::empty(), inspectable: false, refcount: 1 })
                &&& final(self).obj(r.3) == Some(ObjView::JsValue { data: JsDataView::Object { obj: empty_js_object_view() } })
                &&& final(self).allocated() == old(self).allocated() + 4
                &&& final(self).objs_same_except4(*old(self), r.0, r.1, r.2, r.3)
            },
            r.0 == 0 ==> {
                &&& final(self).allocated() == old(self).allocated()
                &&& final(self).objs_same(*old(self))
            },
            !final(self).create_staged_to_fail(),
    {
        if self.fail_next_create {
            self.fail_next_create = false;
            self.record(NativeCall::CreateView { addr: 0, renderer, width, height, view_config, session });
            return (0, 0, 0, 0);
        }
        let n = (width as u64) * 4 * (height as u64);
        let buf: Vec<u8> = zero_vec(n as usize);
        proof {
            assert(buf@ =~= Seq::new((width as nat) * 4 * (height as nat), |i: int| 0u8));
        }
        let rb = (width as u64) * 4;
        let surface = self.grow_slot(ObjState::Surface {
            width,
            height,
            row_bytes: rb as u32,
            pixels: buf,
            locked: false,
            dirty: (0, 0, 0, 0),
        });
        let god = JsObjData {
            props: Vec::new(),
            private_props: Vec::new(),
            private_data: 0,
            proxy_target: 0,
            str_repr: None,
            is_function: false,
            is_constructor: false,
            class_of: 0,
            typed_array_kind: None,
            ta_length: 0,
            ta_byte_offset: 0,
            ta_byte_length: 0,
            ta_buffer: 0,
        };
        proof {
            assert(god@.props =~= Seq::<(Seq<u8>, u64)>::empty());
            assert(god@.private_props =~= Seq::<(Seq<u8>, u64)>::empty());
            assert(god@ == empty_js_object_view());
        }
        let globalobj = self.grow_slot(ObjState::JsValue { data: JsData::Object { obj: god } });
        let ctx = self.grow_slot(ObjState::JsContext { group: 0, global_object: globalobj, name: Vec::new(), inspectable: false, refcount: 1 });
        let view = self.grow_slot(ObjState::View {
            renderer,
            width,
            height,
            url: Vec::new(),
            title: Vec::new(),
            needs_paint: false,
            surface,
            js_ctx: ctx,
            js_locked: false,
            callbacks: 0,
            focused: false,
        });
        self.record(NativeCall::CreateView { addr: view, renderer, width, height, view_config, session });
        (view, surface, ctx, globalobj)
    }

    /// Models the native view destructor.
    pub(crate) fn destroy_view(&mut self, addr: u64)
        ensures
            final(self).calls() == old(self).calls().push(CallView::DestroyView { addr }),
            final(self).obj(addr) is None,
            final(self).objs_same_except(*old(self), addr),
            final(self).allocated() == old(self).allocated(),
            final(self).create_staged_to_fail() == old(self).create_staged_to_fail(),
    {
        let _ = self.take_obj(addr);
        self.record(NativeCall::DestroyView { addr });
    }

    /// Models one native view command that changes no modeled state.
    pub(crate) fn view_command(&mut self, c: NativeCall)
        requires
            c matches NativeCall::ViewLoadHtml { .. }
                || c matches NativeCall::ViewGoBack { .. }
                || c matches NativeCall::ViewGoForward { .. }
                || c matches NativeCall::ViewGoToHistoryOffset { .. }
                || c matches NativeCall::ViewReload { .. }
                || c matches NativeCall::ViewStop { .. }
                || c matches NativeCall::ViewFireKeyEvent { .. }
                || c matches NativeCall::ViewFireMouseEvent { .. }
                || c matches NativeCall::ViewFireScrollEvent { .. },
        ensures
            final(self).calls() == old(self).calls().push(c@),
            final(self).objs_same(*old(self)),
            final(self).allocated() == old(self).allocated(),
            final(self).create_staged_to_fail() == old(self).create_staged_to_fail(),
    {
        self.record(c);
    }

    /// Models the native page load by URL; the view's URL becomes the given
    /// one.
    pub(crate) fn view_load_url(&mut self, addr: u64, url: &[u8])
        requires
            old(self).obj(addr) matches Some(ObjView::View { .. }),
        ensures
            final(self).calls() == old(self).calls().push(CallView::ViewLoadUrl { addr, url: url@ }),
            final(self).obj(addr) == match old(self).obj(addr) {
                Some(ObjView::View { renderer, width, height, url: _, title, needs_paint, surface, js_ctx, js_locked, callbacks, focused }) =>
                    Some(ObjView::View { renderer, width, height, url: url@, title, needs_paint, surface, js_ctx, js_locked, callbacks, focused }),
                other => other,
            },
            final(self).objs_same_except(*old(self), addr),
            final(self).allocated() == old(self).allocated(),
            final(self).create_staged_to_fail() == old(self).create_staged_to_fail(),
    {
        if let Some(ObjState::View { renderer, width, height, title, needs_paint, surface, js_ctx, js_locked, callbacks, focused, .. }) = self.take_obj(addr) {
            self.put_obj(addr, ObjState::View { renderer, width, height, url: slice_to_vec(url), title, needs_paint, surface, js_ctx, js_locked, callbacks, focused });
        }
        self.record(NativeCall::ViewLoadUrl { addr, url: slice_to_vec(url) });
    }

    /// Models the native view resize.
    pub(crate) fn view_resize(&mut self, addr: u64, width: u32, height: u32)
        requires
            old(self).obj(addr) matches Some(ObjView::View { .. }),
        ensures
            final(self).calls() == old(self).calls().push(CallView::ViewResize { addr, width, height }),
            final(self).obj(addr) == match old(self).obj(addr) {
                Some(ObjView::View { renderer, width: _, height: _, url, title, needs_paint, surface, js_ctx, js_locked, callbacks, focused }) =>
                    Some(ObjView::View { renderer, width, height, url, title, needs_paint, surface, js_ctx, js_locked, callbacks, focused }),
                other => other,
            },
            final(self).objs_same_except(*old(self), addr),
            final(self).allocated() == old(self).allocated(),
            final(self).create_staged_to_fail() == old(self).create_staged_to_fail(),
    {
        if let Some(ObjState::View { renderer, url, title, needs_paint, surface, js_ctx, js_locked, callbacks, focused, .. }) = self.take_obj(addr) {
            self.put_obj(addr, ObjState::View { renderer, width, height, url, title, needs_paint, surface, js_ctx, js_locked, callbacks, focused });
        }
        self.record(NativeCall::ViewResize { addr, width, height });
    }

    /// Models the native lock of a view's JavaScript context; the lock is
    /// not reentrant, so it fails exactly when already held. Returns whether
    /// it was acquired and the context's address.
    pub(crate) fn view_lock_js_context(&mut self, addr: u64) -> (r: (bool, u64))
        requires
            old(self).obj(addr) matches Some(ObjView::View { .. }),
        ensures
            final(self).calls() == old(self).calls().push(CallView::ViewLockJSContext { addr, ok: r.0 }),
            old(self).obj(addr) matches Some(ObjView::View { js_locked, js_ctx, .. }) && r.0 == !js_locked && r.1 == js_ctx,
            final(self).obj(addr) == match old(self).obj(addr) {
                Some(ObjView::View { renderer, width, height, url, title, needs_paint, surface, js_ctx, js_locked: _, callbacks, focused }) =>
                    Some(ObjView::View { renderer, width, height, url, title, needs_paint, surface, js_ctx, js_locked: true, callbacks, focused }),
                other => other,
            },
            final(self).objs_same_except(*old(self), addr),
            final(self).allocated() == old(self).allocated(),
            final(self).create_staged_to_fail() == old(self).create_staged_to_fail(),
    {
        let mut ok = false;
        let mut ctx: u64 = 0;
        if let Some(ObjState::View { renderer, width, height, url, title, needs_paint, surface, js_ctx, js_locked, callbacks, focused }) = self.take_obj(addr) {
            ok = !js_locked;
            ctx = js_ctx;
            self.put_obj(addr, ObjState::View { renderer, width, height, url, title, needs_paint, surface, js_ctx, js_locked: true, callbacks, focused });
        }
        self.record(NativeCall::ViewLockJSContext { addr, ok });
        (ok, ctx)
    }

    /// Models the native unlock of a view's JavaScript context.
    pub(crate) fn view_unlock_js_context(&mut self, addr: u64)
        requires
            old(self).obj(addr) matches Some(ObjView::View { .. }),
        ensures
            final(self).calls() == old(self).calls().push(CallView::ViewUnlockJSContext { addr }),
            final(self).obj(addr) == match old(self).obj(addr) {
                Some(ObjView::View { renderer, width, height, url, title, needs_paint, surface, js_ctx, js_locked: _, callbacks, focused }) =>
                    Some(ObjView::View { renderer, width, height, url, title, needs_paint, surface, js_ctx, js_locked: false, callbacks, focused }),
                other => other,
            },
            final(self).objs_same_except(*old(self), addr),
            final(self).allocated() == old(self).allocated(),
            final(self).create_staged_to_fail() == old(self).create_staged_to_fail(),
    {
        if let Some(ObjState::View { renderer, width, height, url, title, needs_paint, surface, js_ctx, callbacks, focused, .. }) = self.take_obj(addr) {
            self.put_obj(addr, ObjState::View { renderer, width, height, url, title, needs_paint, surface, js_ctx, js_locked: false, callbacks, focused });
        }
        self.record(NativeCall::ViewUnlockJSContext { addr });
    }

    /// Models script evaluation in a view. The outcome comes from the
    /// staged queue (success with an empty result when nothing is staged).
    /// On success a fresh engine-owned string holds the result text and its
    /// address is returned.
    pub(crate) fn view_evaluate_script(&mut self, addr: u64, script: &[u8]) -> (r: (bool, Vec<u8>, u64))
        requires
            old(self).allocated() < usize::MAX as nat,
        ensures
            final(self).calls() == old(self).calls().push(CallView::ViewEvaluateScript { addr, script: script@ }),
            final(self).view_eval_queue() == if old(self).view_eval_queue().len() > 0 {
                old(self).view_eval_queue().drop_first()
            } else {
                old(self).view_eval_queue()
            },
            r.0 == if old(self).view_eval_queue().len() > 0 {
                old(self).view_eval_queue()[0].0
            } else {
                true
            },
            r.1@ == if old(self).view_eval_queue().len() > 0 {
                old(self).view_eval_queue()[0].1
            } else {
                Seq::<u8>::empty()
            },
            r.0 ==> {
                &&& r.2 != 0
                &&& !old(self).live(r.2)
                &&& final(self).obj(r.2) == Some(ObjView::UlString { bytes: r.1@ })
                &&& final(self).objs_same_except(*old(self), r.2)
                &&& final(self).allocated() == old(self).allocated() + 1
            },
            !r.0 ==> {
                &&& r.2 == 0
                &&& final(self).objs_same(*old(self))
                &&& final(self).allocated() == old(self).allocated()
            },
            final(self).create_staged_to_fail() == old(self).create_staged_to_fail(),
    {
        let (ok, text) = if self.staged_view_evals.len() > 0 {
            let e = self.staged_view_evals.remove(0);
            proof {
                assert(self.view_eval_queue() =~= old(self).view_eval_queue().drop_first());
            }
            e
        } else {
            (true, Vec::new())
        };
        let mut result: u64 = 0;
        if ok {
            result = self.grow_slot(ObjState::UlString { bytes: slice_to_vec(text.as_slice()) });
        }
        self.record(NativeCall::ViewEvaluateScript { addr, script: slice_to_vec(script) });
        (ok, text, result)
    }

    /// Models installing or clearing one of a view's native callback
    /// registrations, identified by its kind code.
    pub(crate) fn view_set_callback(&mut self, addr: u64, kind: u32, installed: bool)
        requires
            old(self).obj(addr) matches Some(ObjView::View { .. }),
            kind < 13,
        ensures
            final(self).calls() == old(self).calls().push(CallView::ViewSetCallback { addr, kind, installed }),
            final(self).obj(addr) == match old(self).obj(addr) {
                Some(ObjView::View { renderer, width, height, url, title, needs_paint, surface, js_ctx, js_locked, callbacks, focused }) =>
                    Some(ObjView::View {
                        renderer, width, height, url, title, needs_paint, surface, js_ctx, js_locked,
                        callbacks: if installed { callbacks | (1u32 << kind) } else { callbacks & !(1u32 << kind) },
                        focused,
                    }),
                other => other,
            },
            final(self).objs_same_except(*old(self), addr),
            final(self).allocated() == old(self).allocated(),
            final(self).create_staged_to_fail() == old(self).create_staged_to_fail(),
    {
        if let Some(ObjState::View { renderer, width, height, url, title, needs_paint, surface, js_ctx, js_locked, callbacks, focused }) = self.take_obj(addr) {
            let mask = if installed { callbacks | (1u32 << kind) } else { callbacks & !(1u32 << kind) };
            self.put_obj(addr, ObjState::View { renderer, width, height, url, title, needs_paint, surface, js_ctx, js_locked, callbacks: mask, focused });
        }
        self.record(NativeCall::ViewSetCallback { addr, kind, installed });
    }

    /// Models the native focus and unfocus calls on a view.
    pub(crate) fn view_set_focused(&mut self, addr: u64, focused: bool)
        requires
            old(self).obj(addr) matches Some(ObjView::View { .. }),
        ensures
            final(self).calls() == old(self).calls().push(
                if focused { CallView::ViewFocus { addr } } else { CallView::ViewUnfocus { addr } },
            ),
            final(self).obj(addr) == match old(self).obj(addr) {
                Some(ObjView::View { renderer, width, height, url, title, needs_paint, surface, js_ctx, js_locked, callbacks, focused: _ }) =>
                    Some(ObjView::View { renderer, width, height, url, title, needs_paint, surface, js_ctx, js_locked, callbacks, focused }),
                other => other,
            },
            final(self).objs_same_except(*old(self), addr),
            final(self).allocated() == old(self).allocated(),
            final(self).create_staged_to_fail() == old(self).create_staged_to_fail(),
    {
        if let Some(ObjState::View { renderer, width, height, url, title, needs_paint, surface, js_ctx, js_locked, callbacks, .. }) = self.take_obj(addr) {
            self.put_obj(addr, ObjState::View { renderer, width, height, url, title, needs_paint, surface, js_ctx, js_locked, callbacks, focused });
        }
        if focused {
            self.record(NativeCall::ViewFocus { addr });
        } else {
            self.record(NativeCall::ViewUnfocus { addr });
        }
    }

    /// Models the native needs-paint setter.
    pub(crate) fn view_set_needs_paint(&mut self, addr: u64, needs_paint: bool)
        requires
            old(self).obj(addr) matches Some(ObjView::View { .. }),
        ensures
            final(self).calls() == old(self).calls().push(CallView::ViewSetNeedsPaint { addr, needs_paint }),
            final(self).obj(addr) == match old(self).obj(addr) {
                Some(ObjView::View { renderer, width, height, url, title, needs_paint: _, surface, js_ctx, js_locked, callbacks, focused }) =>
                    Some(ObjView::View { renderer, width, height, url, title, needs_paint, surface, js_ctx, js_locked, callbacks, focused }),
                other => other,
            },
            final(self).objs_same_except(*old(self), addr),
            final(self).allocated() == old(self).allocated(),
            final(self).create_staged_to_fail() == old(self).create_staged_to_fail(),
    {
        if let Some(ObjState::View { renderer, width, height, url, title, surface, js_ctx, js_locked, callbacks, focused, .. }) = self.take_obj(addr) {
            self.put_obj(addr, ObjState::View { renderer, width, height, url, title, needs_paint, surface, js_ctx, js_locked, callbacks, focused });
        }
        self.record(NativeCall::ViewSetNeedsPaint { addr, needs_paint });
    }

    /// Models the native queries on view state: dimensions, surface,
    /// context, lock state, callback mask, URL, title, focus, paint flag.
    pub(crate) fn view_state(&self, addr: u64) -> (r: (u32, u32, u64, u64, bool, u32, bool, bool))
        requires
            self.obj(addr) matches Some(ObjView::View { .. }),
        ensures
            self.obj(addr) matches Some(ObjView::View { width, height, surface, js_ctx, js_locked, callbacks, focused, needs_paint, .. })
                && r == (width, height, surface, js_ctx, js_locked, callbacks, focused, needs_paint),
    {
        match self.get_obj(addr) {
            Some(ObjState::View { width, height, surface, js_ctx, js_locked, callbacks, focused, needs_paint, .. }) =>
                (*width, *height, *surface, *js_ctx, *js_locked, *callbacks, *focused, *needs_paint),
            _ => (0, 0, 0, 0, false, 0, false, false),
        }
    }

    /// Models the native query for a view's current URL.
    pub(crate) fn view_url(&self, addr: u64) -> (r: Vec<u8>)
        requires
            self.obj(addr) matches Some(ObjView::View { .. }),
        ensures
            self.obj(addr) matches Some(ObjView::View { url, .. }) && r@ == url,
    {
        match self.get_obj(addr) {
            Some(ObjState::View { url, .. }) => slice_to_vec(url.as_slice()),
            _ => Vec::new(),
        }
    }

    /// Models the native query for a view's current title.
    pub(crate) fn view_title(&self, addr: u64) -> (r: Vec<u8>)
        requires
            self.obj(addr) matches Some(ObjView::View { .. }),
        ensures
            self.obj(addr) matches Some(ObjView::View { title, .. }) && r@ == title,
    {
        match self.get_obj(addr) {
            Some(ObjState::View { title, .. }) => slice_to_vec(title.as_slice()),
            _ => Vec::new(),
        }
    }

    /// Models the native overlay constructor around an existing view.
    pub(crate) fn create_overlay_with_view(&mut self, window: u64, view: u64, width: u32, height: u32, x: i32, y: i32) -> (addr: u64)
        ensures
            final(self).calls() == old(self).calls().push(CallView::CreateOverlay { addr, window, width, height, x, y }),
            addr != 0 <==> old(self).create_succeeds(),
            addr != 0 ==> {
                &&& !old(self).live(addr)
                &&& final(self).obj(addr) == Some(ObjView::Overlay { window, view, width, height, x, y, hidden: false, focused: false })
                &&& final(self).allocated() == old(self).allocated() + 1
            },
            addr == 0 ==> {
                &&& final(self).allocated() == old(self).allocated()
                &&& final(self).objs_same(*old(self))
            },
            final(self).objs_same_except(*old(self), addr),
            !final(self).create_staged_to_fail(),
    {
        let addr = self.fresh_slot(ObjState::Overlay { window, view, width, height, x, y, hidden: false, focused: false });
        self.record(NativeCall::CreateOverlay { addr, window, width, height, x, y });
        addr
    }

    /// Models the native overlay destructor.
    pub(crate) fn destroy_overlay(&mut self, addr: u64)
        ensures
            final(self).calls() == old(self).calls().push(CallView::DestroyOverlay { addr }),
            final(self).obj(addr) is None,
            final(self).objs_same_except(*old(self), addr),
            final(self).allocated() == old(self).allocated(),
            final(self).create_staged_to_fail() == old(self).create_staged_to_fail(),
    {
        let _ = self.take_obj(addr);
        self.record(NativeCall::DestroyOverlay { addr });
    }

    /// Models the native overlay move.
    pub(crate) fn overlay_move_to(&mut self, addr: u64, x: i32, y: i32)
        requires
            old(self).obj(addr) matches Some(ObjView::Overlay { .. }),
        ensures
            final(self).calls() == old(self).calls().push(CallView::OverlayMoveTo { addr, x, y }),
            final(self).obj(addr) == match old(self).obj(addr) {
                Some(ObjView::Overlay { window, view, width, height, x: _, y: _, hidden, focused }) =>
                    Some(ObjView::Overlay { window, view, width, height, x, y, hidden, focused }),
                other => other,
            },
            final(self).objs_same_except(*old(self), addr),
            final(self).allocated() == old(self).allocated(),
            final(self).create_staged_to_fail() == old(self).create_staged_to_fail(),
    {
        if let Some(ObjState::Overlay { window, view, width, height, hidden, focused, .. }) = self.take_obj(addr) {
            self.put_obj(addr, ObjState::Overlay { window, view, width, height, x, y, hidden, focused });
        }
        self.record(NativeCall::OverlayMoveTo { addr, x, y });
    }

    /// Models the native overlay resize.
    pub(crate) fn overlay_resize(&mut self, addr: u64, width: u32, height: u32)
        requires
            old(self).obj(addr) matches Some(ObjView::Overlay { .. }),
        ensures
            final(self).calls() == old(self).calls().push(CallView::OverlayResize { addr, width, height }),
            final(self).obj(addr) == match old(self).obj(addr) {
                Some(ObjView::Overlay { window, view, width: _, height: _, x, y, hidden, focused }) =>
                    Some(ObjView::Overlay { window, view, width, height, x, y, hidden, focused }),
                other => other,
            },
            final(self).objs_same_except(*old(self), addr),
            final(self).allocated() == old(self).allocated(),
            final(self).create_staged_to_fail() == old(self).create_staged_to_fail(),
    {
        if let Some(ObjState::Overlay { window, view, x, y, hidden, focused, .. }) = self.take_obj(addr) {
            self.put_obj(addr, ObjState::Overlay { window, view, width, height, x, y, hidden, focused });
        }
        self.record(NativeCall::OverlayResize { addr, width, height });
    }

    /// Models the native overlay show and hide calls.
    pub(crate) fn overlay_set_hidden(&mut self, addr: u64, hidden: bool)
        requires
            old(self).obj(addr) matches Some(ObjView::Overlay { .. }),
        ensures
            final(self).calls() == old(self).calls().push(
                if hidden { CallView::OverlayHide { addr } } else { CallView::OverlayShow { addr } },
            ),
            final(self).obj(addr) == match old(self).obj(addr) {
                Some(ObjView::Overlay { window, view, width, height, x, y, hidden: _, focused }) =>
                    Some(ObjView::Overlay { window, view, width, height, x, y, hidden, focused }),
                other => other,
            },
            final(self).objs_same_except(*old(self), addr),
            final(self).allocated() == old(self).allocated(),
            final(self).create_staged_to_fail() == old(self).create_staged_to_fail(),
    {
        if let Some(ObjState::Overlay { window, view, width, height, x, y, focused, .. }) = self.take_obj(addr) {
            self.put_obj(addr, ObjState::Overlay { window, view, width, height, x, y, hidden, focused });
        }
        if hidden {
            self.record(NativeCall::OverlayHide { addr });
        } else {
            self.record(NativeCall::OverlayShow { addr });
        }
    }

    /// Models the native overlay focus and unfocus calls.
    pub(crate) fn overlay_set_focused(&mut self, addr: u64, focused: bool)
        requires
            old(self).obj(addr) matches Some(ObjView::Overlay { .. }),
        ensures
            final(self).calls() == old(self).calls().push(
                if focused { CallView::OverlayFocus { addr } } else { CallView::OverlayUnfocus { addr } },
            ),
            final(self).obj(addr) == match old(self).obj(addr) {
                Some(ObjView::Overlay { window, view, width, height, x, y, hidden, focused: _ }) =>
                    Some(ObjView::Overlay { window, view, width, height, x, y, hidden, focused }),
                other => other,
            },
            final(self).objs_same_except(*old(self), addr),
            final(self).allocated() == old(self).allocated(),
            final(self).create_staged_to_fail() == old(self).create_staged_to_fail(),
    {
        if let Some(ObjState::Overlay { window, view, width, height, x, y, hidden, .. }) = self.take_obj(addr) {
            self.put_obj(addr, ObjState::Overlay { window, view, width, height, x, y, hidden, focused });
        }
        if focused {
            self.record(NativeCall::OverlayFocus { addr });
        } else {
            self.record(NativeCall::OverlayUnfocus { addr });
        }
    }

    /// Models the native queries on overlay state.
    pub(crate) fn overlay_state(&self, addr: u64) -> (r: (u64, u32, u32, i32, i32, bool, bool))
        requires
            self.obj(addr) matches Some(ObjView::Overlay { .. }),
        ensures
            self.obj(addr) matches Some(ObjView::Overlay { view, width, height, x, y, hidden, focused, .. })
                && r == (view, width, height, x, y, hidden, focused),
    {
        match self.get_obj(addr) {
            Some(ObjState::Overlay { view, width, height, x, y, hidden, focused, .. }) =>
                (*view, *width, *height, *x, *y, *hidden, *focused),
            _ => (0, 0, 0, 0, 0, false, false),
        }
    }

    /// The creation call an event object of the given kind records.
    pub open spec fn event_create_call(o: ObjView, addr: u64) -> CallView {
        match o {
            ObjView::KeyEvent { .. } => CallView::CreateKeyEvent { addr },
            ObjView::MouseEvent { .. } => CallView::CreateMouseEvent { addr },
            ObjView::ScrollEvent { .. } => CallView::CreateScrollEvent { addr },
            ObjView::GamepadEvent { .. } => CallView::CreateGamepadEvent { addr },
            ObjView::GamepadAxisEvent { .. } => CallView::CreateGamepadAxisEvent { addr },
            _ => CallView::CreateGamepadButtonEvent { addr },
        }
    }

    /// Models one native event constructor; the event object simply records
    /// its creation arguments.
    pub(crate) fn create_event(&mut self, o: ObjState) -> (addr: u64)
        requires
            o matches ObjState::KeyEvent { .. } || o matches ObjState::MouseEvent { .. }
                || o matches ObjState::ScrollEvent { .. } || o matches ObjState::GamepadEvent { .. }
                || o matches ObjState::GamepadAxisEvent { .. } || o matches ObjState::GamepadButtonEvent { .. },
        ensures
            addr != 0 <==> old(self).create_succeeds(),
            addr != 0 ==> {
                &&& !old(self).live(addr)
                &&& final(self).obj(addr) == Some(o@)
                &&& final(self).allocated() == old(self).allocated() + 1
            },
            addr == 0 ==> {
                &&& final(self).allocated() == old(self).allocated()
                &&& final(self).objs_same(*old(self))
            },
            final(self).objs_same_except(*old(self), addr),
            final(self).calls() == old(self).calls().push(Self::event_create_call(o@, addr)),
            !final(self).create_staged_to_fail(),
    {
        let c = match &o {
            ObjState::KeyEvent { .. } => NativeCall::CreateKeyEvent { addr: 0 },
            ObjState::MouseEvent { .. } => NativeCall::CreateMouseEvent { addr: 0 },
            ObjState::ScrollEvent { .. } => NativeCall::CreateScrollEvent { addr: 0 },
            ObjState::GamepadEvent { .. } => NativeCall::CreateGamepadEvent { addr: 0 },
            ObjState::GamepadAxisEvent { .. } => NativeCall::CreateGamepadAxisEvent { addr: 0 },
            _ => NativeCall::CreateGamepadButtonEvent { addr: 0 },
        };
        let addr = self.fresh_slot(o);
        let c = match c {
            NativeCall::CreateKeyEvent { .. } => NativeCall::CreateKeyEvent { addr },
            NativeCall::CreateMouseEvent { .. } => NativeCall::CreateMouseEvent { addr },
            NativeCall::CreateScrollEvent { .. } => NativeCall::CreateScrollEvent { addr },
            NativeCall::CreateGamepadEvent { .. } => NativeCall::CreateGamepadEvent { addr },
            NativeCall::CreateGamepadAxisEvent { .. } => NativeCall::CreateGamepadAxisEvent { addr },
            _ => NativeCall::CreateGamepadButtonEvent { addr },
        };
        self.record(c);
        addr
    }

    /// Models one native event destructor or other single-address teardown
    /// call.
    pub(crate) fn destroy_event(&mut self, addr: u64, c: NativeCall)
        ensures
            final(self).calls() == old(self).calls().push(c@),
            final(self).obj(addr) is None,
            final(self).objs_same_except(*old(self), addr),
            final(self).allocated() == old(self).allocated(),
            final(self).create_staged_to_fail() == old(self).create_staged_to_fail(),
    {
        let _ = self.take_obj(addr);
        self.record(c);
    }

    /// Models the native image-source constructor from a bitmap.
    pub(crate) fn create_image_source(&mut self, bitmap: u64) -> (addr: u64)
        ensures
            final(self).calls() == old(self).calls().push(CallView::ImageSourceCreate { addr, bitmap }),
            addr != 0 <==> old(self).create_succeeds(),
            addr != 0 ==> {
                &&& !old(self).live(addr)
                &&& final(self).obj(addr) == Some(ObjView::ImageSource { bitmap })
                &&& final(self).allocated() == old(self).allocated() + 1
            },
            addr == 0 ==> {
                &&& final(self).allocated() == old(self).allocated()
                &&& final(self).objs_same(*old(self))
            },
            final(self).objs_same_except(*old(self), addr),
            !final(self).create_staged_to_fail(),
    {
        let addr = self.fresh_slot(ObjState::ImageSource { bitmap });
        self.record(NativeCall::ImageSourceCreate { addr, bitmap });
        addr
    }

    /// The default state of a freshly created view configuration.
    pub open spec fn view_config_defaults() -> ObjView {
        ObjView::ViewConfig {
            display_id: 0,
            is_accelerated: false,
            is_transparent: false,
            initial_focus: true,
            enable_images: true,
            enable_javascript: true,
            user_agent: Seq::<u8>::empty(),
        }
    }

    /// Models the native view-configuration constructor.
    pub(crate) fn create_view_config(&mut self) -> (addr: u64)
        ensures
            final(self).calls() == old(self).calls().push(CallView::CreateViewConfig { addr }),
            addr != 0 <==> old(self).create_succeeds(),
            addr != 0 ==> {
                &&& !old(self).live(addr)
                &&& final(self).obj(addr) == Some(Self::view_config_defaults())
                &&& final(self).allocated() == old(self).allocated() + 1
            },
            addr == 0 ==> {
                &&& final(self).allocated() == old(self).allocated()
                &&& final(self).objs_same(*old(self))
            },
            final(self).objs_same_except(*old(self), addr),
            !final(self).create_staged_to_fail(),
    {
        let addr = self.fresh_slot(ObjState::ViewConfig {
            display_id: 0,
            is_accelerated: false,
            is_transparent: false,
            initial_focus: true,
            enable_images: true,
            enable_javascript: true,
            user_agent: Vec::new(),
        });
        self.record(NativeCall::CreateViewConfig { addr });
        addr
    }

    /// Models one native view-configuration setter. The call carries the
    /// updated object state in full.
    pub(crate) fn view_config_set(&mut self, addr: u64, o: ObjState, c: NativeCall)
        requires
            old(self).obj(addr) matches Some(ObjView::ViewConfig { .. }),
            o matches ObjState::ViewConfig { .. },
        ensures
            final(self).calls() == old(self).calls().push(c@),
            final(self).obj(addr) == Some(o@),
            final(self).objs_same_except(*old(self), addr),
            final(self).allocated() == old(self).allocated(),
            final(self).create_staged_to_fail() == old(self).create_staged_to_fail(),
    {
        if let Some(ObjState::ViewConfig { .. }) = self.take_obj(addr) {
        }
        self.put_obj(addr, o);
        self.record(c);
    }

    /// Models the native read of a view configuration's state.
    pub(crate) fn view_config_state(&self, addr: u64) -> (r: (u32, bool, bool, bool, bool, bool, Vec<u8>))
        requires
            self.obj(addr) matches Some(ObjView::ViewConfig { .. }),
        ensures
            self.obj(addr) matches Some(ObjView::ViewConfig { display_id, is_accelerated, is_transparent, initial_focus, enable_images, enable_javascript, user_agent })
                && r.0 == display_id && r.1 == is_accelerated && r.2 == is_transparent && r.3 == initial_focus
                && r.4 == enable_images && r.5 == enable_javascript && r.6@ == user_agent,
    {
        match self.get_obj(addr) {
            Some(ObjState::ViewConfig { display_id, is_accelerated, is_transparent, initial_focus, enable_images, enable_javascript, user_agent }) =>
                (*display_id, *is_accelerated, *is_transparent, *initial_focus, *enable_images, *enable_javascript, slice_to_vec(user_agent.as_slice())),
            _ => (0, false, false, false, false, false, Vec::new()),
        }
    }

    /// Models the native view-configuration destructor.
    pub(crate) fn destroy_view_config(&mut self, addr: u64)
        ensures
            final(self).calls() == old(self).calls().push(CallView::DestroyViewConfig { addr }),
            final(self).obj(addr) is None,
            final(self).objs_same_except(*old(self), addr),
            final(self).allocated() == old(self).allocated(),
            final(self).create_staged_to_fail() == old(self).create_staged_to_fail(),
    {
        let _ = self.take_obj(addr);
        self.record(NativeCall::DestroyViewConfig { addr });
    }

    /// Models the native overlay constructor: the overlay comes with its own
    /// view (and that view's surface, JavaScript context, and global
    /// object). The returned tuple holds the overlay's address and the
    /// view's.
    pub(crate) fn create_overlay(&mut self, window: u64, width: u32, height: u32, x: i32, y: i32) -> (r: (u64, u64))
        requires
            old(self).allocated() + 5 <= usize::MAX as nat,
            (width as nat) * 4 <= u32::MAX as nat,
            (width as nat) * 4 * (height as nat) <= u32::MAX as nat,
        ensures
            final(self).calls() == old(self).calls().push(CallView::CreateOverlay { addr: r.0, window, width, height, x, y }),
            r.0 != 0 <==> !old(self).create_staged_to_fail(),
            r.0 != 0 ==> {
                &&& r.1 != 0
                &&& r.0 != r.1
                &&& !old(self).live(r.0)
                &&& !old(self).live(r.1)
                &&& final(self).obj(r.0) == Some(ObjView::Overlay { window, view: r.1, width, height, x, y, hidden: false, focused: false })
                &&& (final(self).obj(r.1) matches Some(ObjView::View { width: vw, height: vh, .. }) && vw == width && vh == height)
                &&& final(self).allocated() == old(self).allocated() + 5
            },
            r.0 == 0 ==> {
                &&& final(self).allocated() == old(self).allocated()
                &&& final(self).objs_same(*old(self))
            },
            !final(self).create_staged_to_fail(),
    {
        if self.fail_next_create {
            self.fail_next_create = false;
            self.record(NativeCall::CreateOverlay { addr: 0, window, width, height, x, y });
            return (0, 0);
        }
        let n = (width as u64) * 4 * (height as u64);
        let buf: Vec<u8> = zero_vec(n as usize);
        let rb = (width as u64) * 4;
        let surface = self.grow_slot(ObjState::Surface {
            width,
            height,
            row_bytes: rb as u32,
            pixels: buf,
            locked: false,
            dirty: (0, 0, 0, 0),
        });
        let god = JsObjData {
            props: Vec::new(),
            private_props: Vec::new(),
            private_data: 0,
            proxy_target: 0,
            str_repr: None,
            is_function: false,
            is_constructor: false,
            class_of: 0,
            typed_array_kind: None,
            ta_length: 0,
            ta_byte_offset: 0,
            ta_byte_length: 0,
            ta_buffer: 0,
        };
        let globalobj = self.grow_slot(ObjState::JsValue { data: JsData::Object { obj: god } });
        let ctx = self.grow_slot(ObjState::JsContext { group: 0, global_object: globalobj, name: Vec::new(), inspectable: false, refcount: 1 });
        let view = self.grow_slot(ObjState::View {
            renderer: 0,
            width,
            height,
            url: Vec::new(),
            title: Vec::new(),
            needs_paint: false,
            surface,
            js_ctx: ctx,
            js_locked: false,
            callbacks: 0,
            focused: false,
        });
        let overlay = self.grow_slot(ObjState::Overlay { window, view, width, height, x, y, hidden: false, focused: false });
        self.record(NativeCall::CreateOverlay { addr: overlay, window, width, height, x, y });
        (overlay, view)
    }

    /// Models the native context-group constructor.
    pub(crate) fn create_js_context_group(&mut self) -> (addr: u64)
        ensures
            final(self).calls() == old(self).calls().push(CallView::JsContextGroupCreate { addr }),
            addr != 0 <==> old(self).create_succeeds(),
            addr != 0 ==> {
                &&& !old(self).live(addr)
                &&& final(self).obj(addr) == Some(ObjView::JsContextGroup { refcount: 1 })
                &&& final(self).allocated() == old(self).allocated() + 1
            },
            addr == 0 ==> final(self).allocated() == old(self).allocated() && final(self).objs_same(*old(self)),
            final(self).objs_same_except(*old(self), addr),
            !final(self).create_staged_to_fail(),
    {
        let addr = self.fresh_slot(ObjState::JsContextGroup { refcount: 1 });
        self.record(NativeCall::JsContextGroupCreate { addr });
        addr
    }

    /// Models the native context-group retain: one more reference.
    pub(crate) fn js_context_group_retain(&mut self, addr: u64)
        requires
            old(self).obj(addr) matches Some(ObjView::JsContextGroup { refcount }) && refcount < u32::MAX,
        ensures
            final(self).calls() == old(self).calls().push(CallView::JsContextGroupRetain { addr }),
            final(self).obj(addr) == match old(self).obj(addr) {
                Some(ObjView::JsContextGroup { refcount }) => Some(ObjView::JsContextGroup { refcount: (refcount + 1) as u32 }),
                other => other,
            },
            final(self).objs_same_except(*old(self), addr),
            final(self).allocated() == old(self).allocated(),
            final(self).create_staged_to_fail() == old(self).create_staged_to_fail(),
    {
        if let Some(ObjState::JsContextGroup { refcount }) = self.take_obj(addr) {
            if refcount < u32::MAX {
                self.put_obj(addr, ObjState::JsContextGroup { refcount: refcount + 1 });
            } else {
                self.put_obj(addr, ObjState::JsContextGroup { refcount });
            }
        }
        self.record(NativeCall::JsContextGroupRetain { addr });
    }

    /// Models the native context-group release: one fewer reference, and
    /// teardown when the last one goes.
    pub(crate) fn js_context_group_release(&mut self, addr: u64)
        requires
            old(self).obj(addr) matches Some(ObjView::JsContextGroup { refcount }) && refcount >= 1,
        ensures
            final(self).calls() == old(self).calls().push(CallView::JsContextGroupRelease { addr }),
            final(self).obj(addr) == match old(self).obj(addr) {
                Some(ObjView::JsContextGroup { refcount }) => if refcount == 1 {
                    None
                } else {
                    Some(ObjView::JsContextGroup { refcount: (refcount - 1) as u32 })
                },
                other => other,
            },
            final(self).objs_same_except(*old(self), addr),
            final(self).allocated() == old(self).allocated(),
            final(self).create_staged_to_fail() == old(self).create_staged_to_fail(),
    {
        if let Some(ObjState::JsContextGroup { refcount }) = self.take_obj(addr) {
            if refcount > 1 {
                self.put_obj(addr, ObjState::JsContextGroup { refcount: refcount - 1 });
            }
        }
        self.record(NativeCall::JsContextGroupRelease { addr });
    }

    /// Models the native global-context constructor; the context's global
    /// object exists from the start. Returns the context's address and the
    /// global object's.
    pub(crate) fn create_js_global_context(&mut self, group: u64) -> (r: (u64, u64))
        requires
            old(self).allocated() + 2 <= usize::MAX as nat,
        ensures
            final(self).calls() == old(self).calls().push(CallView::JsGlobalContextCreate { addr: r.0, group }),
            r.0 != 0 <==> !old(self).create_staged_to_fail(),
            r.0 != 0 ==> {
                &&& r.1 != 0
                &&& r.0 != r.1
                &&& !old(self).live(r.0)
                &&& !old(self).live(r.1)
                &&& final(self).obj(r.0) == Some(ObjView::JsContext { group, global_object: r.1, name: Seq::<u8>::empty(), inspectable: false, refcount: 1 })
                &&& final(self).obj(r.1) == Some(ObjView::JsValue { data: JsDataView::Object { obj: empty_js_object_view() } })
                &&& final(self).allocated() == old(self).allocated() + 2
                &&& final(self).objs_same_except2(*old(self), r.0, r.1)
            },
            r.0 == 0 ==> final(self).allocated() == old(self).allocated() && final(self).objs_same(*old(self)),
            !final(self).create_staged_to_fail(),
    {
        if self.fail_next_create {
            self.fail_next_create = false;
            self.record(NativeCall::JsGlobalContextCreate { addr: 0, group });
            return (0, 0);
        }
        let god = JsObjData {
            props: Vec::new(),
            private_props: Vec::new(),
            private_data: 0,
            proxy_target: 0,
            str_repr: None,
            is_function: false,
            is_constructor: false,
            class_of: 0,
            typed_array_kind: None,
            ta_length: 0,
            ta_byte_offset: 0,
            ta_byte_length: 0,
            ta_buffer: 0,
        };
        proof {
            assert(god@.props =~= Seq::<(Seq<u8>, u64)>::empty());
            assert(god@.private_props =~= Seq::<(Seq<u8>, u64)>::empty());
            assert(god@ == empty_js_object_view());
        }
        let globalobj = self.grow_slot(ObjState::JsValue { data: JsData::Object { obj: god } });
        let ctx = self.grow_slot(ObjState::JsContext { group, global_object: globalobj, name: Vec::new(), inspectable: false, refcount: 1 });
        self.record(NativeCall::JsGlobalContextCreate { addr: ctx, group });
        (ctx, globalobj)
    }

    /// Models the native global-context retain.
    pub(crate) fn js_global_context_retain(&mut self, addr: u64)
        requires
            old(self).obj(addr) matches Some(ObjView::JsContext { refcount, .. }) && refcount < u32::MAX,
        ensures
            final(self).calls() == old(self).calls().push(CallView::JsGlobalContextRetain { addr }),
            final(self).obj(addr) == match old(self).obj(addr) {
                Some(ObjView::JsContext { group, global_object, name, inspectable, refcount }) =>
                    Some(ObjView::JsContext { group, global_object, name, inspectable, refcount: (refcount + 1) as u32 }),
                other => other,
            },
            final(self).objs_same_except(*old(self), addr),
            final(self).allocated() == old(self).allocated(),
            final(self).create_staged_to_fail() == old(self).create_staged_to_fail(),
    {
        if let Some(ObjState::JsContext { group, global_object, name, inspectable, refcount }) = self.take_obj(addr) {
            let rc = if refcount < u32::MAX { refcount + 1 } else { refcount };
            self.put_obj(addr, ObjState::JsContext { group, global_object, name, inspectable, refcount: rc });
        }
        self.record(NativeCall::JsGlobalContextRetain { addr });
    }

    /// Models the native global-context release; teardown when the last
    /// reference goes.
    pub(crate) fn js_global_context_release(&mut self, addr: u64)
        requires
            old(self).obj(addr) matches Some(ObjView::JsContext { refcount, .. }) && refcount >= 1,
        ensures
            final(self).calls() == old(self).calls().push(CallView::JsGlobalContextRelease { addr }),
            final(self).obj(addr) == match old(self).obj(addr) {
                Some(ObjView::JsContext { group, global_object, name, inspectable, refcount }) => if refcount == 1 {
                    None
                } else {
                    Some(ObjView::JsContext { group, global_object, name, inspectable, refcount: (refcount - 1) as u32 })
                },
                other => other,
            },
            final(self).objs_same_except(*old(self), addr),
            final(self).allocated() == old(self).allocated(),
            final(self).create_staged_to_fail() == old(self).create_staged_to_fail(),
    {
        if let Some(ObjState::JsContext { group, global_object, name, inspectable, refcount }) = self.take_obj(addr) {
            if refcount > 1 {
                self.put_obj(addr, ObjState::JsContext { group, global_object, name, inspectable, refcount: refcount - 1 });
            }
        }
        self.record(NativeCall::JsGlobalContextRelease { addr });
    }

    /// Models the native query for a context's global object.
    pub(crate) fn js_context_global_object(&self, addr: u64) -> (r: u64)
        requires
            self.obj(addr) matches Some(ObjView::JsContext { .. }),
        ensures
            self.obj(addr) matches Some(ObjView::JsContext { global_object, .. }) && r == global_object,
    {
        match self.get_obj(addr) {
            Some(ObjState::JsContext { global_object, .. }) => *global_object,
            _ => 0,
        }
    }

    /// Models the native queries for a context's name, inspectability, and
    /// group.
    pub(crate) fn js_context_state(&self, addr: u64) -> (r: (Vec<u8>, bool, u64))
        requires
            self.obj(addr) matches Some(ObjView::JsContext { .. }),
        ensures
            self.obj(addr) matches Some(ObjView::JsContext { name, inspectable, group, .. })
                && r.0@ == name && r.1 == inspectable && r.2 == group,
    {
        match self.get_obj(addr) {
            Some(ObjState::JsContext { name, inspectable, group, .. }) => (slice_to_vec(name.as_slice()), *inspectable, *group),
            _ => (Vec::new(), false, 0),
        }
    }

    /// Models the native setter for a context's debug name.
    pub(crate) fn js_global_context_set_name(&mut self, addr: u64, name: &[u8])
        requires
            old(self).obj(addr) matches Some(ObjView::JsContext { .. }),
        ensures
            final(self).calls() == old(self).calls().push(CallView::JsGlobalContextSetName { addr, name: name@ }),
            final(self).obj(addr) == match old(self).obj(addr) {
                Some(ObjView::JsContext { group, global_object, name: _, inspectable, refcount }) =>
                    Some(ObjView::JsContext { group, global_object, name: name@, inspectable, refcount }),
                other => other,
            },
            final(self).objs_same_except(*old(self), addr),
            final(self).allocated() == old(self).allocated(),
            final(self).create_staged_to_fail() == old(self).create_staged_to_fail(),
    {
        if let Some(ObjState::JsContext { group, global_object, inspectable, refcount, .. }) = self.take_obj(addr) {
            self.put_obj(addr, ObjState::JsContext { group, global_object, name: slice_to_vec(name), inspectable, refcount });
        }
        self.record(NativeCall::JsGlobalContextSetName { addr, name: slice_to_vec(name) });
    }

    /// Models the native setter for a context's inspectability.
    pub(crate) fn js_global_context_set_inspectable(&mut self, addr: u64, inspectable: bool)
        requires
            old(self).obj(addr) matches Some(ObjView::JsContext { .. }),
        ensures
            final(self).calls() == old(self).calls().push(CallView::JsGlobalContextSetInspectable { addr, inspectable }),
            final(self).obj(addr) == match old(self).obj(addr) {
                Some(ObjView::JsContext { group, global_object, name, inspectable: _, refcount }) =>
                    Some(ObjView::JsContext { group, global_object, name, inspectable, refcount }),
                other => other,
            },
            final(self).objs_same_except(*old(self), addr),
            final(self).allocated() == old(self).allocated(),
            final(self).create_staged_to_fail() == old(self).create_staged_to_fail(),
    {
        if let Some(ObjState::JsContext { group, global_object, name, refcount, .. }) = self.take_obj(addr) {
            self.put_obj(addr, ObjState::JsContext { group, global_object, name, inspectable, refcount });
        }
        self.record(NativeCall::JsGlobalContextSetInspectable { addr, inspectable });
    }

    /// Models the native garbage-collection request.
    pub(crate) fn js_garbage_collect(&mut self, addr: u64)
        ensures
            final(self).calls() == old(self).calls().push(CallView::JsGarbageCollect { addr }),
            final(self).objs_same(*old(self)),
            final(self).allocated() == old(self).allocated(),
            final(self).create_staged_to_fail() == old(self).create_staged_to_fail(),
    {
        self.record(NativeCall::JsGarbageCollect { addr });
    }

    /// Stage the outcome of the next JavaScript evaluation: success or an
    /// exception, with the value that comes back. Not a call, so nothing is
    /// logged.
    pub fn stage_js_eval(&mut self, ok: bool, value: u64)
        ensures
            final(self).js_eval_queue() == old(self).js_eval_queue().push((ok, value)),
            final(self).calls() == old(self).calls(),
            final(self).objs_same(*old(self)),
            final(self).allocated() == old(self).allocated(),
            final(self).view_eval_queue() == old(self).view_eval_queue(),
            final(self).js_call_queue() == old(self).js_call_queue(),
            final(self).create_staged_to_fail() == old(self).create_staged_to_fail(),
    {
        self.staged_js_evals.push((ok, value));
    }

    /// Stage the outcome of the next JavaScript function or constructor
    /// call. Not a call, so nothing is logged.
    pub fn stage_js_call(&mut self, ok: bool, value: u64)
        ensures
            final(self).js_call_queue() == old(self).js_call_queue().push((ok, value)),
            final(self).calls() == old(self).calls(),
            final(self).objs_same(*old(self)),
            final(self).allocated() == old(self).allocated(),
            final(self).view_eval_queue() == old(self).view_eval_queue(),
            final(self).js_eval_queue() == old(self).js_eval_queue(),
            final(self).create_staged_to_fail() == old(self).create_staged_to_fail(),
    {
        self.staged_js_calls.push((ok, value));
    }

    /// Models JavaScript evaluation in a context. The outcome comes from
    /// the staged queue; with nothing staged a fresh undefined value comes
    /// back. Returns the result's and the exception's addresses, at most
    /// one of them nonzero.
    pub(crate) fn js_evaluate_script(&mut self, addr: u64, script: &[u8]) -> (r: (u64, u64))
        requires
            old(self).allocated() < usize::MAX as nat,
        ensures
            final(self).calls() == old(self).calls().push(CallView::JsEvaluateScript { addr, script: script@ }),
            final(self).js_eval_queue() == if old(self).js_eval_queue().len() > 0 {
                old(self).js_eval_queue().drop_first()
            } else {
                old(self).js_eval_queue()
            },
            old(self).js_eval_queue().len() > 0 ==> {
                &&& r == if old(self).js_eval_queue()[0].0 {
                    (old(self).js_eval_queue()[0].1, 0u64)
                } else {
                    (0u64, old(self).js_eval_queue()[0].1)
                }
                &&& final(self).objs_same(*old(self))
                &&& final(self).allocated() == old(self).allocated()
            },
            old(self).js_eval_queue().len() == 0 ==> {
                &&& r.1 == 0
                &&& r.0 != 0
                &&& !old(self).live(r.0)
                &&& final(self).obj(r.0) == Some(ObjView::JsValue { data: JsDataView::Undefined })
                &&& final(self).objs_same_except(*old(self), r.0)
                &&& final(self).allocated() == old(self).allocated() + 1
            },
            final(self).create_staged_to_fail() == old(self).create_staged_to_fail(),
    {
        let r = if self.staged_js_evals.len() > 0 {
            let (ok, value) = self.staged_js_evals.remove(0);
            if ok {
                (value, 0)
            } else {
                (0, value)
            }
        } else {
            let v = self.grow_slot(ObjState::JsValue { data: JsData::Undefined });
            (v, 0)
        };
        self.record(NativeCall::JsEvaluateScript { addr, script: slice_to_vec(script) });
        r
    }

    /// Models a JavaScript function call. The outcome comes from the staged
    /// queue; with nothing staged a fresh undefined value comes back.
    pub(crate) fn js_call_function(&mut self, addr: u64, this: u64, args: &[u64]) -> (r: (u64, u64))
        requires
            old(self).allocated() < usize::MAX as nat,
        ensures
            final(self).calls() == old(self).calls().push(CallView::JsCallFunction { addr, this, args: args@ }),
            final(self).js_call_queue() == if old(self).js_call_queue().len() > 0 {
                old(self).js_call_queue().drop_first()
            } else {
                old(self).js_call_queue()
            },
            old(self).js_call_queue().len() > 0 ==> {
                &&& r == if old(self).js_call_queue()[0].0 {
                    (old(self).js_call_queue()[0].1, 0u64)
                } else {
                    (0u64, old(self).js_call_queue()[0].1)
                }
                &&& final(self).objs_same(*old(self))
            },
            old(self).js_call_queue().len() == 0 ==> {
                &&& r.1 == 0
                &&& r.0 != 0
                &&& !old(self).live(r.0)
                &&& final(self).obj(r.0) == Some(ObjView::JsValue { data: JsDataView::Undefined })
                &&& final(self).objs_same_except(*old(self), r.0)
            },
            final(self).create_staged_to_fail() == old(self).create_staged_to_fail(),
    {
        let r = if self.staged_js_calls.len() > 0 {
            let (ok, value) = self.staged_js_calls.remove(0);
            if ok {
                (value, 0)
            } else {
                (0, value)
            }
        } else {
            let v = self.grow_slot(ObjState::JsValue { data: JsData::Undefined });
            (v, 0)
        };
        self.record(NativeCall::JsCallFunction { addr, this, args: slice_to_vec(args) });
        r
    }

    /// Models a JavaScript constructor call. The outcome comes from the
    /// staged queue; with nothing staged a fresh plain object comes back.
    pub(crate) fn js_call_constructor(&mut self, addr: u64, args: &[u64]) -> (r: (u64, u64))
        requires
            old(self).allocated() < usize::MAX as nat,
        ensures
            final(self).calls() == old(self).calls().push(CallView::JsCallConstructor { addr, args: args@ }),
            final(self).js_call_queue() == if old(self).js_call_queue().len() > 0 {
                old(self).js_call_queue().drop_first()
            } else {
                old(self).js_call_queue()
            },
            old(self).js_call_queue().len() > 0 ==> {
                &&& r == if old(self).js_call_queue()[0].0 {
                    (old(self).js_call_queue()[0].1, 0u64)
                } else {
                    (0u64, old(self).js_call_queue()[0].1)
                }
                &&& final(self).objs_same(*old(self))
            },
            old(self).js_call_queue().len() == 0 ==> {
                &&& r.1 == 0
                &&& r.0 != 0
                &&& !old(self).live(r.0)
                &&& final(self).obj(r.0) == Some(ObjView::JsValue { data: JsDataView::Object { obj: empty_js_object_view() } })
                &&& final(self).objs_same_except(*old(self), r.0)
            },
            final(self).create_staged_to_fail() == old(self).create_staged_to_fail(),
    {
        let r = if self.staged_js_calls.len() > 0 {
            let (ok, value) = self.staged_js_calls.remove(0);
            if ok {
                (value, 0)
            } else {
                (0, value)
            }
        } else {
            let god = JsObjData {
                props: Vec::new(),
                private_props: Vec::new(),
                private_data: 0,
                proxy_target: 0,
                str_repr: None,
                is_function: false,
                is_constructor: false,
                class_of: 0,
                typed_array_kind: None,
                ta_length: 0,
                ta_byte_offset: 0,
                ta_byte_length: 0,
                ta_buffer: 0,
            };
            proof {
                assert(god@.props =~= Seq::<(Seq<u8>, u64)>::empty());
                assert(god@.private_props =~= Seq::<(Seq<u8>, u64)>::empty());
                assert(god@ == empty_js_object_view());
            }
            let v = self.grow_slot(ObjState::JsValue { data: JsData::Object { obj: god } });
            (v, 0)
        };
        self.record(NativeCall::JsCallConstructor { addr, args: slice_to_vec(args) });
        r
    }

    /// Models the native string constructor of the script engine.
    pub(crate) fn create_js_string(&mut self, bytes: &[u8]) -> (addr: u64)
        ensures
            final(self).calls() == old(self).calls().push(CallView::JsStringCreate { addr }),
            addr != 0 <==> old(self).create_succeeds(),
            addr != 0 ==> {
                &&& !old(self).live(addr)
                &&& final(self).obj(addr) == Some(ObjView::JsString { bytes: bytes@, refcount: 1 })
                &&& final(self).allocated() == old(self).allocated() + 1
            },
            addr == 0 ==> final(self).allocated() == old(self).allocated() && final(self).objs_same(*old(self)),
            final(self).objs_same_except(*old(self), addr),
            !final(self).create_staged_to_fail(),
    {
        let addr = self.fresh_slot(ObjState::JsString { bytes: slice_to_vec(bytes), refcount: 1 });
        self.record(NativeCall::JsStringCreate { addr });
        addr
    }

    /// Models the script engine's string retain.
    pub(crate) fn js_string_retain(&mut self, addr: u64)
        requires
            old(self).obj(addr) matches Some(ObjView::JsString { refcount, .. }) && refcount < u32::MAX,
        ensures
            final(self).calls() == old(self).calls().push(CallView::JsStringRetain { addr }),
            final(self).obj(addr) == match old(self).obj(addr) {
                Some(ObjView::JsString { bytes, refcount }) => Some(ObjView::JsString { bytes, refcount: (refcount + 1) as u32 }),
                other => other,
            },
            final(self).objs_same_except(*old(self), addr),
            final(self).allocated() == old(self).allocated(),
            final(self).create_staged_to_fail() == old(self).create_staged_to_fail(),
    {
        if let Some(ObjState::JsString { bytes, refcount }) = self.take_obj(addr) {
            let rc = if refcount < u32::MAX { refcount + 1 } else { refcount };
            self.put_obj(addr, ObjState::JsString { bytes, refcount: rc });
        }
        self.record(NativeCall::JsStringRetain { addr });
    }

    /// Models the script engine's string release; teardown when the last
    /// reference goes.
    pub(crate) fn js_string_release(&mut self, addr: u64)
        requires
            old(self).obj(addr) matches Some(ObjView::JsString { refcount, .. }) && refcount >= 1,
        ensures
            final(self).calls() == old(self).calls().push(CallView::JsStringRelease { addr }),
            final(self).obj(addr) == match old(self).obj(addr) {
                Some(ObjView::JsString { bytes, refcount }) => if refcount == 1 {
                    None
                } else {
                    Some(ObjView::JsString { bytes, refcount: (refcount - 1) as u32 })
                },
                other => other,
            },
            final(self).objs_same_except(*old(self), addr),
            final(self).allocated() == old(self).allocated(),
            final(self).create_staged_to_fail() == old(self).create_staged_to_fail(),
    {
        if let Some(ObjState::JsString { bytes, refcount }) = self.take_obj(addr) {
            if refcount > 1 {
                self.put_obj(addr, ObjState::JsString { bytes, refcount: refcount - 1 });
            }
        }
        self.record(NativeCall::JsStringRelease { addr });
    }

    /// Models the native read of a script-engine string's contents.
    pub(crate) fn js_string_bytes(&self, addr: u64) -> (r: Vec<u8>)
        requires
            self.obj(addr) matches Some(ObjView::JsString { .. }),
        ensures
            self.obj(addr) matches Some(ObjView::JsString { bytes, .. }) && r@ == bytes,
    {
        match self.get_obj(addr) {
            Some(ObjState::JsString { bytes, .. }) => slice_to_vec(bytes.as_slice()),
            _ => Vec::new(),
        }
    }

    /// Models one native value constructor: the fresh value carries the
    /// given payload. The constructors are infallible native calls, so
    /// nothing is logged.
    pub(crate) fn js_value_make(&mut self, data: JsData) -> (addr: u64)
        ensures
            addr != 0 <==> old(self).allocated() < usize::MAX as nat,
            addr != 0 ==> {
                &&& !old(self).live(addr)
                &&& final(self).obj(addr) == Some(ObjView::JsValue { data: data@ })
                &&& final(self).allocated() == old(self).allocated() + 1
            },
            addr == 0 ==> final(self).allocated() == old(self).allocated() && final(self).objs_same(*old(self)),
            final(self).objs_same_except(*old(self), addr),
            final(self).calls() == old(self).calls(),
            final(self).create_staged_to_fail() == old(self).create_staged_to_fail(),
    {
        self.grow_slot(ObjState::JsValue { data })
    }

    /// Models the native type query on a value.
    pub(crate) fn js_value_kind(&self, addr: u64) -> (r: u32)
        requires
            self.obj(addr) matches Some(ObjView::JsValue { .. }),
        ensures
            self.obj(addr) matches Some(ObjView::JsValue { data }) && r == value_kind(data),
    {
        match self.get_obj(addr) {
            Some(ObjState::JsValue { data }) => match data {
                JsData::Undefined => 0,
                JsData::Null => 1,
                JsData::Boolean { .. } => 2,
                JsData::Number { .. } => 3,
                JsData::Text { .. } => 4,
                JsData::Object { .. } => 5,
                JsData::Symbol => 6,
            },
            _ => 0,
        }
    }

    /// Models the native truthiness conversion on a value.
    pub(crate) fn js_value_truthy(&self, addr: u64) -> (r: bool)
        requires
            self.obj(addr) matches Some(ObjView::JsValue { .. }),
        ensures
            self.obj(addr) matches Some(ObjView::JsValue { data }) && r == value_truthy(data),
    {
        match self.get_obj(addr) {
            Some(ObjState::JsValue { data }) => match data {
                JsData::Undefined => false,
                JsData::Null => false,
                JsData::Boolean { b } => *b,
                JsData::Number { n } => *n != 0,
                JsData::Text { bytes } => bytes.len() > 0,
                JsData::Symbol => true,
                JsData::Object { .. } => true,
            },
            _ => false,
        }
    }

    /// Models the engine's string conversion on a value, where the model
    /// defines one.
    pub(crate) fn js_value_to_text(&self, addr: u64) -> (r: Option<Vec<u8>>)
        requires
            self.obj(addr) matches Some(ObjView::JsValue { .. }),
        ensures
            self.obj(addr) matches Some(ObjView::JsValue { data }) && (match r {
                Some(v) => value_text(data) == Some(v@),
                None => value_text(data) is None,
            }),
    {
        match self.get_obj(addr) {
            Some(ObjState::JsValue { data }) => match data {
                JsData::Text { bytes } => Some(slice_to_vec(bytes.as_slice())),
                JsData::Boolean { b } => Some(if *b { slice_to_vec("true".as_bytes()) } else { slice_to_vec("false".as_bytes()) }),
                JsData::Undefined => Some(slice_to_vec("undefined".as_bytes())),
                JsData::Null => Some(slice_to_vec("null".as_bytes())),
                JsData::Number { n } => Some(dec_text_exec(*n)),
                JsData::Object { obj } => match &obj.str_repr {
                    Some(v) => Some(slice_to_vec(v.as_slice())),
                    None => None,
                },
                _ => None,
            },
            _ => None,
        }
    }

    /// Models the engine's number conversion on a value, where the model
    /// defines one.
    pub(crate) fn js_value_to_num(&self, addr: u64) -> (r: Option<i64>)
        requires
            self.obj(addr) matches Some(ObjView::JsValue { .. }),
        ensures
            self.obj(addr) matches Some(ObjView::JsValue { data }) && r == value_num(data),
    {
        match self.get_obj(addr) {
            Some(ObjState::JsValue { data }) => match data {
                JsData::Number { n } => Some(*n),
                JsData::Boolean { b } => Some(if *b { 1 } else { 0 }),
                JsData::Null => Some(0),
                _ => None,
            },
            _ => None,
        }
    }

    /// Models the native protect and unprotect calls on a value.
    pub(crate) fn js_value_set_protected(&mut self, addr: u64, protect: bool)
        ensures
            final(self).calls() == old(self).calls().push(
                if protect { CallView::JsValueProtect { addr } } else { CallView::JsValueUnprotect { addr } },
            ),
            final(self).objs_same(*old(self)),
            final(self).allocated() == old(self).allocated(),
            final(self).create_staged_to_fail() == old(self).create_staged_to_fail(),
    {
        if protect {
            self.record(NativeCall::JsValueProtect { addr });
        } else {
            self.record(NativeCall::JsValueUnprotect { addr });
        }
    }

    /// Models the native read of the fields an object value carries besides
    /// its properties: private data, proxy target, callability,
    /// constructability, and class.
    pub(crate) fn js_object_fields(&self, addr: u64) -> (r: (u64, u64, bool, bool, u64))
        requires
            self.obj(addr) matches Some(ObjView::JsValue { .. }),
        ensures
            self.obj(addr) matches Some(ObjView::JsValue { data }) && (match data {
                JsDataView::Object { obj } => r == (obj.private_data, obj.proxy_target, obj.is_function, obj.is_constructor, obj.class_of),
                _ => r == (0u64, 0u64, false, false, 0u64),
            }),
    {
        match self.get_obj(addr) {
            Some(ObjState::JsValue { data: JsData::Object { obj } }) =>
                (obj.private_data, obj.proxy_target, obj.is_function, obj.is_constructor, obj.class_of),
            _ => (0, 0, false, false, 0),
        }
    }

    /// Models the native read of an object's typed-array nature: whether it
    /// is one, its kind code, element count, byte offset, byte extent, and
    /// backing buffer.
    pub(crate) fn js_object_typed_array(&self, addr: u64) -> (r: (bool, u32, usize, usize, usize, u64))
        requires
            self.obj(addr) matches Some(ObjView::JsValue { .. }),
        ensures
            self.obj(addr) matches Some(ObjView::JsValue { data }) && (match data {
                JsDataView::Object { obj } => match obj.typed_array_kind {
                    Some(k) => r == (true, k, obj.ta_length, obj.ta_byte_offset, obj.ta_byte_length, obj.ta_buffer),
                    None => r.0 == false,
                },
                _ => r.0 == false,
            }),
    {
        match self.get_obj(addr) {
            Some(ObjState::JsValue { data: JsData::Object { obj } }) => match obj.typed_array_kind {
                Some(k) => (true, k, obj.ta_length, obj.ta_byte_offset, obj.ta_byte_length, obj.ta_buffer),
                None => (false, 0, 0, 0, 0, 0),
            },
            _ => (false, 0, 0, 0, 0, 0),
        }
    }

    /// Models the native property read on an object: the bound value's
    /// address, or 0 when the property is unbound (or the value is no
    /// object). A binding to 0 records a deleted property and counts as
    /// unbound.
    pub(crate) fn js_object_get_prop(&self, addr: u64, private: bool, name: &[u8]) -> (r: u64)
        requires
            self.obj(addr) matches Some(ObjView::JsValue { .. }),
        ensures
            self.obj(addr) matches Some(ObjView::JsValue { data }) && (match data {
                JsDataView::Object { obj } => r == (match prop_lookup(if private { obj.private_props } else { obj.props }, name@) {
                    Some(v) => v,
                    None => 0u64,
                }),
                _ => r == 0,
            }),
    {
        match self.get_obj(addr) {
            Some(st) => match st {
                ObjState::JsValue { data } => match data {
                JsData::Object { obj } => {
                let props = if private { &obj.private_props } else { &obj.props };
                let ghost gprops = if private { obj@.private_props } else { obj@.props };
                proof {
                    assert(self.obj(addr) == Some(st@));
                }
                let n = props.len();
                let mut k: usize = 0;
                while k < n
                    invariant
                        self.obj(addr) == Some(ObjView::JsValue { data: JsDataView::Object { obj: obj@ } }),
                        gprops == if private { obj@.private_props } else { obj@.props },
                        n == props@.len(),
                        gprops == props@.map_values(|p: (Vec<u8>, u64)| (p.0@, p.1)),
                        n == gprops.len(),
                        k <= n,
                        forall|j: int| 0 <= j < k ==> gprops[j].0 != name@,
                    decreases n - k,
                {
                    if bytes_eq(props[k].0.as_slice(), name) {
                        proof {
                            assert(gprops[k as int].0 == name@);
                            lemma_prop_lookup_found(gprops, k as int, name@);
                            assert(gprops[k as int].1 == props@[k as int].1);
                        }
                        return props[k].1;
                    }
                    k = k + 1;
                }
                proof {
                    lemma_prop_lookup_absent(gprops, name@);
                }
                0
                },
                _ => 0,
                },
                _ => 0,
            },
            _ => 0,
        }
    }

    /// Models the native property write on an object: afterwards `name` is
    /// bound to `value` and every other binding is unchanged. Writing 0
    /// records a deletion.
    pub(crate) fn js_object_set_prop(&mut self, addr: u64, private: bool, name: &[u8], value: u64)
        requires
            old(self).obj(addr) matches Some(ObjView::JsValue { data: JsDataView::Object { .. } }),
        ensures
            final(self).calls() == old(self).calls().push(CallView::JsObjectSetProperty { addr, private, name: name@, value }),
            old(self).obj(addr) matches Some(ObjView::JsValue { data: JsDataView::Object { obj } })
                && (final(self).obj(addr) matches Some(ObjView::JsValue { data: JsDataView::Object { obj: newobj } })
                    && {
                        &&& private ==> {
                            &&& prop_lookup(newobj.private_props, name@) == Some(value)
                            &&& forall|k: Seq<u8>| k != name@ ==> prop_lookup(newobj.private_props, k) == prop_lookup(obj.private_props, k)
                            &&& newobj.props == obj.props
                        }
                        &&& !private ==> {
                            &&& prop_lookup(newobj.props, name@) == Some(value)
                            &&& forall|k: Seq<u8>| k != name@ ==> prop_lookup(newobj.props, k) == prop_lookup(obj.props, k)
                            &&& newobj.private_props == obj.private_props
                        }
                        &&& newobj.private_data == obj.private_data
                        &&& newobj.proxy_target == obj.proxy_target
                        &&& newobj.str_repr == obj.str_repr
                        &&& newobj.is_function == obj.is_function
                        &&& newobj.is_constructor == obj.is_constructor
                        &&& newobj.class_of == obj.class_of
                        &&& newobj.typed_array_kind == obj.typed_array_kind
                    }),
            final(self).objs_same_except(*old(self), addr),
            final(self).allocated() == old(self).allocated(),
            final(self).create_staged_to_fail() == old(self).create_staged_to_fail(),
    {
        if let Some(ObjState::JsValue { data: JsData::Object { mut obj } }) = self.take_obj(addr) {
            let entry = (slice_to_vec(name), value);
            if private {
                let ghost gprops = obj@.private_props;
                match find_prop_index(&obj.private_props, name) {
                    Some(i) => {
                        obj.private_props.set(i, entry);
                        proof {
                            assert(obj.private_props@.map_values(|p: (Vec<u8>, u64)| (p.0@, p.1)) =~= gprops.update(i as int, (name@, value)));
                            assert forall|q: Seq<u8>| true implies prop_lookup(gprops.update(i as int, (name@, value)), q) == (if q == name@ { Some(value) } else { prop_lookup(gprops, q) }) by {
                                lemma_prop_lookup_update(gprops, i as int, name@, value, q);
                            }
                        }
                    },
                    None => {
                        obj.private_props.push(entry);
                        proof {
                            assert(obj.private_props@.map_values(|p: (Vec<u8>, u64)| (p.0@, p.1)) =~= gprops.push((name@, value)));
                            assert forall|q: Seq<u8>| true implies prop_lookup(gprops.push((name@, value)), q) == (if q == name@ { Some(value) } else { prop_lookup(gprops, q) }) by {
                                lemma_prop_lookup_push(gprops, name@, value, q);
                            }
                        }
                    },
                }
            } else {
                let ghost gprops = obj@.props;
                match find_prop_index(&obj.props, name) {
                    Some(i) => {
                        obj.props.set(i, entry);
                        proof {
                            assert(obj.props@.map_values(|p: (Vec<u8>, u64)| (p.0@, p.1)) =~= gprops.update(i as int, (name@, value)));
                            assert forall|q: Seq<u8>| true implies prop_lookup(gprops.update(i as int, (name@, value)), q) == (if q == name@ { Some(value) } else { prop_lookup(gprops, q) }) by {
                                lemma_prop_lookup_update(gprops, i as int, name@, value, q);
                            }
                        }
                    },
                    None => {
                        obj.props.push(entry);
                        proof {
                            assert(obj.props@.map_values(|p: (Vec<u8>, u64)| (p.0@, p.1)) =~= gprops.push((name@, value)));
                            assert forall|q: Seq<u8>| true implies prop_lookup(gprops.push((name@, value)), q) == (if q == name@ { Some(value) } else { prop_lookup(gprops, q) }) by {
                                lemma_prop_lookup_push(gprops, name@, value, q);
                            }
                        }
                    },
                }
            }
            self.put_obj(addr, ObjState::JsValue { data: JsData::Object { obj } });
        }
        self.record(NativeCall::JsObjectSetProperty { addr, private, name: slice_to_vec(name), value });
    }

    /// Models the native write of an object's private data pointer.
    pub(crate) fn js_object_set_private(&mut self, addr: u64, data: u64) -> (ok: bool)
        requires
            old(self).obj(addr) matches Some(ObjView::JsValue { .. }),
        ensures
            old(self).obj(addr) matches Some(ObjView::JsValue { data: d }) && ok == (d matches JsDataView::Object { .. }),
            final(self).calls() == old(self).calls(),
            final(self).obj(addr) == match old(self).obj(addr) {
                Some(ObjView::JsValue { data: JsDataView::Object { obj } }) =>
                    Some(ObjView::JsValue { data: JsDataView::Object { obj: JsObjDataView { private_data: data, ..obj } } }),
                other => other,
            },
            final(self).objs_same_except(*old(self), addr),
            final(self).allocated() == old(self).allocated(),
            final(self).create_staged_to_fail() == old(self).create_staged_to_fail(),
    {
        if let Some(ObjState::JsValue { data: d }) = self.take_obj(addr) {
            match d {
                JsData::Object { mut obj } => {
                    obj.private_data = data;
                    self.put_obj(addr, ObjState::JsValue { data: JsData::Object { obj } });
                    true
                },
                other => {
                    self.put_obj(addr, ObjState::JsValue { data: other });
                    false
                },
            }
        } else {
            false
        }
    }

    /// Models the native class constructor of the script engine.
    pub(crate) fn create_js_class(&mut self, name: &[u8], attributes: u32, callback_flags: u32, static_values: Vec<(Vec<u8>, bool, bool, u32)>, static_functions: Vec<Vec<u8>>) -> (addr: u64)
        ensures
            final(self).calls() == old(self).calls().push(CallView::JsClassCreate { addr, name: name@ }),
            addr != 0 <==> old(self).create_succeeds(),
            addr != 0 ==> {
                &&& !old(self).live(addr)
                &&& final(self).obj(addr) == Some(ObjView::JsClass {
                    name: name@,
                    attributes,
                    callback_flags,
                    static_values: static_values@.map_values(|v: (Vec<u8>, bool, bool, u32)| (v.0@, v.1, v.2, v.3)),
                    static_functions: static_functions@.map_values(|v: Vec<u8>| v@),
                    refcount: 1,
                })
                &&& final(self).allocated() == old(self).allocated() + 1
            },
            addr == 0 ==> final(self).allocated() == old(self).allocated() && final(self).objs_same(*old(self)),
            final(self).objs_same_except(*old(self), addr),
            !final(self).create_staged_to_fail(),
    {
        let addr = self.fresh_slot(ObjState::JsClass {
            name: slice_to_vec(name),
            attributes,
            callback_flags,
            static_values,
            static_functions,
            refcount: 1,
        });
        self.record(NativeCall::JsClassCreate { addr, name: slice_to_vec(name) });
        addr
    }

    /// Models the script engine's class retain.
    pub(crate) fn js_class_retain(&mut self, addr: u64)
        requires
            old(self).obj(addr) matches Some(ObjView::JsClass { refcount, .. }) && refcount < u32::MAX,
        ensures
            final(self).calls() == old(self).calls().push(CallView::JsClassRetain { addr }),
            final(self).obj(addr) == match old(self).obj(addr) {
                Some(ObjView::JsClass { name, attributes, callback_flags, static_values, static_functions, refcount }) =>
                    Some(ObjView::JsClass { name, attributes, callback_flags, static_values, static_functions, refcount: (refcount + 1) as u32 }),
                other => other,
            },
            final(self).objs_same_except(*old(self), addr),
            final(self).allocated() == old(self).allocated(),
            final(self).create_staged_to_fail() == old(self).create_staged_to_fail(),
    {
        if let Some(ObjState::JsClass { name, attributes, callback_flags, static_values, static_functions, refcount }) = self.take_obj(addr) {
            let rc = if refcount < u32::MAX { refcount + 1 } else { refcount };
            self.put_obj(addr, ObjState::JsClass { name, attributes, callback_flags, static_values, static_functions, refcount: rc });
        }
        self.record(NativeCall::JsClassRetain { addr });
    }

    /// Models the script engine's class release; teardown when the last
    /// reference goes.
    pub(crate) fn js_class_release(&mut self, addr: u64)
        requires
            old(self).obj(addr) matches Some(ObjView::JsClass { refcount, .. }) && refcount >= 1,
        ensures
            final(self).calls() == old(self).calls().push(CallView::JsClassRelease { addr }),
            final(self).obj(addr) == match old(self).obj(addr) {
                Some(ObjView::JsClass { name, attributes, callback_flags, static_values, static_functions, refcount }) => if refcount == 1 {
                    None
                } else {
                    Some(ObjView::JsClass { name, attributes, callback_flags, static_values, static_functions, refcount: (refcount - 1) as u32 })
                },
                other => other,
            },
            final(self).objs_same_except(*old(self), addr),
            final(self).allocated() == old(self).allocated(),
            final(self).create_staged_to_fail() == old(self).create_staged_to_fail(),
    {
        if let Some(ObjState::JsClass { name, attributes, callback_flags, static_values, static_functions, refcount }) = self.take_obj(addr) {
            if refcount > 1 {
                self.put_obj(addr, ObjState::JsClass { name, attributes, callback_flags, static_values, static_functions, refcount: refcount - 1 });
            }
        }
        self.record(NativeCall::JsClassRelease { addr });
    }

    /// Whether a live script value sits at `addr`.
    pub(crate) fn js_value_exists(&self, addr: u64) -> (r: bool)
        ensures
            r == (self.obj(addr) matches Some(ObjView::JsValue { .. })),
    {
        match self.get_obj(addr) {
            Some(st) => match st {
                ObjState::JsValue { .. } => true,
                _ => false,
            },
            None => false,
        }
    }

    /// Put a script value with the given payload into the modeled engine,
    /// as a running script would have produced it. Not a call, so nothing
    /// is logged.
    pub fn stage_js_value(&mut self, data: JsData) -> (addr: u64)
        ensures
            addr != 0 <==> old(self).allocated() < usize::MAX as nat,
            addr != 0 ==> {
                &&& !old(self).live(addr)
                &&& final(self).obj(addr) == Some(ObjView::JsValue { data: data@ })
                &&& final(self).allocated() == old(self).allocated() + 1
            },
            addr == 0 ==> final(self).allocated() == old(self).allocated() && final(self).objs_same(*old(self)),
            final(self).objs_same_except(*old(self), addr),
            final(self).calls() == old(self).calls(),
            final(self).create_staged_to_fail() == old(self).create_staged_to_fail(),
            final(self).js_eval_queue() == old(self).js_eval_queue(),
            final(self).js_call_queue() == old(self).js_call_queue(),
            final(self).view_eval_queue() == old(self).view_eval_queue(),
    {
        self.grow_slot(ObjState::JsValue { data })
    }

    /// Models the native buffer constructor; the model copies the given
    /// bytes into the native buffer.
    pub(crate) fn create_buffer(&mut self, data: &[u8], owns_data: bool) -> (addr: u64)
        ensures
            final(self).calls() == old(self).calls().push(CallView::CreateBuffer { addr }),
            addr != 0 <==> old(self).create_succeeds(),
            addr != 0 ==> {
                &&& !old(self).live(addr)
                &&& final(self).obj(addr) == Some(ObjView::Buffer { data: data@, owns_data })
                &&& final(self).allocated() == old(self).allocated() + 1
            },
            addr == 0 ==> final(self).allocated() == old(self).allocated() && final(self).objs_same(*old(self)),
            final(self).objs_same_except(*old(self), addr),
            !final(self).create_staged_to_fail(),
    {
        let addr = self.fresh_slot(ObjState::Buffer { data: slice_to_vec(data), owns_data });
        self.record(NativeCall::CreateBuffer { addr });
        addr
    }

    /// Models the native read of a buffer's contents.
    pub(crate) fn buffer_data(&self, addr: u64) -> (r: Vec<u8>)
        requires
            self.obj(addr) matches Some(ObjView::Buffer { .. }),
        ensures
            self.obj(addr) matches Some(ObjView::Buffer { data, .. }) && r@ == data,
    {
        match self.get_obj(addr) {
            Some(st) => match st {
                ObjState::Buffer { data, .. } => slice_to_vec(data.as_slice()),
                _ => Vec::new(),
            },
            None => Vec::new(),
        }
    }

    /// Models the native query for whether a buffer owns its storage.
    pub(crate) fn buffer_owns_data(&self, addr: u64) -> (r: bool)
        requires
            self.obj(addr) matches Some(ObjView::Buffer { .. }),
        ensures
            self.obj(addr) matches Some(ObjView::Buffer { owns_data, .. }) && r == owns_data,
    {
        match self.get_obj(addr) {
            Some(st) => match st {
                ObjState::Buffer { owns_data, .. } => *owns_data,
                _ => false,
            },
            None => false,
        }
    }

    /// Models the native buffer destructor.
    pub(crate) fn destroy_buffer(&mut self, addr: u64)
        ensures
            final(self).calls() == old(self).calls().push(CallView::DestroyBuffer { addr }),
            final(self).obj(addr) is None,
            final(self).objs_same_except(*old(self), addr),
            final(self).allocated() == old(self).allocated(),
            final(self).create_staged_to_fail() == old(self).create_staged_to_fail(),
    {
        let _ = self.take_obj(addr);
        self.record(NativeCall::DestroyBuffer { addr });
    }

    /// Stage the verdict of the next syntax check. Not a call, so nothing
    /// is logged.
    pub fn stage_js_syntax(&mut self, valid: bool)
        ensures
            final(self).js_syntax_queue() == old(self).js_syntax_queue().push(valid),
            final(self).calls() == old(self).calls(),
            final(self).objs_same(*old(self)),
            final(self).allocated() == old(self).allocated(),
            final(self).js_eval_queue() == old(self).js_eval_queue(),
            final(self).js_call_queue() == old(self).js_call_queue(),
            final(self).create_staged_to_fail() == old(self).create_staged_to_fail(),
    {
        self.staged_js_syntax.push(valid);
    }

    /// Models the engine's syntax check: the verdict comes from the staged
    /// queue, valid when nothing is staged.
    pub(crate) fn js_check_script_syntax(&mut self, addr: u64, script: &[u8]) -> (valid: bool)
        ensures
            final(self).calls() == old(self).calls().push(CallView::JsCheckScriptSyntax { addr, script: script@ }),
            final(self).js_syntax_queue() == if old(self).js_syntax_queue().len() > 0 {
                old(self).js_syntax_queue().drop_first()
            } else {
                old(self).js_syntax_queue()
            },
            valid == if old(self).js_syntax_queue().len() > 0 {
                old(self).js_syntax_queue()[0]
            } else {
                true
            },
            final(self).objs_same(*old(self)),
            final(self).allocated() == old(self).allocated(),
            final(self).create_staged_to_fail() == old(self).create_staged_to_fail(),
    {
        let valid = if self.staged_js_syntax.len() > 0 {
            self.staged_js_syntax.remove(0)
        } else {
            true
        };
        self.record(NativeCall::JsCheckScriptSyntax { addr, script: slice_to_vec(script) });
        valid
    }
}

} // verus!
