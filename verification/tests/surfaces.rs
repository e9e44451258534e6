//! Scoped pixel locks on surfaces and bitmaps.

use ulkit::native::{NativeCall, NativeHost};
use ulkit::ul::bitmap::ULBitmapFormat;
use ulkit::ul::error::Error;
use ulkit::ul::surface::read_pixel;
use ulkit::ul::{Bitmap, Buffer, IntRect, Surface};

fn lock_unlock_pairs(host: &NativeHost, addr: u64) -> (usize, usize) {
    let locks = host
        .log()
        .iter()
        .filter(|c| matches!(c, NativeCall::SurfaceLockPixels { addr: a, ok: true } if *a == addr))
        .count();
    let unlocks = host
        .log()
        .iter()
        .filter(|c| matches!(c, NativeCall::SurfaceUnlockPixels { addr: a } if *a == addr))
        .count();
    (locks, unlocks)
}

#[test]
fn lock_is_matched_by_exactly_one_unlock_on_the_success_path() {
    let mut host = NativeHost::new();
    let surface = Surface::from_raw(host.stage_surface(4, 2, 16)).unwrap();
    assert_eq!(surface.size(&host), 32);

    let guard = surface.lock_pixels(&mut host).unwrap();
    assert_eq!(guard.size(), 32);
    guard.write(&mut host, 0, 0xAB);
    guard.write(&mut host, 31, 0xCD);
    let pixels = guard.to_vec(&host);
    assert_eq!(pixels[0], 0xAB);
    assert_eq!(pixels[31], 0xCD);
    guard.unlock(&mut host);

    assert_eq!(lock_unlock_pairs(&host, surface.raw()), (1, 1));
}

#[test]
fn lock_is_matched_by_exactly_one_unlock_on_the_error_path() {
    let mut host = NativeHost::new();
    let surface = Surface::from_raw(host.stage_surface(2, 2, 8)).unwrap();
    // the index check fails after the lock was taken; the early return
    // still unlocks
    let r = read_pixel(&surface, &mut host, 999);
    assert!(matches!(r, Err(Error::InvalidArgument(_))));
    assert_eq!(lock_unlock_pairs(&host, surface.raw()), (1, 1));

    // and the success path balances too
    assert_eq!(read_pixel(&surface, &mut host, 0).unwrap(), 0);
    assert_eq!(lock_unlock_pairs(&host, surface.raw()), (2, 2));
}

#[test]
fn locking_twice_fails_like_the_native_lock() {
    let mut host = NativeHost::new();
    let surface = Surface::from_raw(host.stage_surface(2, 2, 8)).unwrap();
    let guard = surface.lock_pixels(&mut host).unwrap();
    let second = surface.lock_pixels(&mut host);
    assert!(matches!(second, Err(Error::NullReference(_))));
    assert!(matches!(
        host.log().last().unwrap(),
        NativeCall::SurfaceLockPixels { ok: false, .. }
    ));
    guard.unlock(&mut host);
    // after the unlock the surface can be locked again
    let again = surface.lock_pixels(&mut host).unwrap();
    again.unlock(&mut host);
}

#[test]
fn surface_geometry_and_dirty_bounds() {
    let mut host = NativeHost::new();
    let surface = Surface::from_raw(host.stage_surface(10, 5, 40)).unwrap();
    assert_eq!(surface.width(&host), 10);
    assert_eq!(surface.height(&host), 5);
    assert_eq!(surface.row_bytes(&host), 40);
    assert_eq!(surface.size(&host), 200);

    surface.set_dirty_bounds(&mut host, IntRect::new(1, 2, 3, 4));
    assert_eq!(surface.dirty_bounds(&host), IntRect::new(1, 2, 3, 4));
    surface.clear_dirty_bounds(&mut host);
    assert_eq!(surface.dirty_bounds(&host), IntRect::empty());

    surface.resize(&mut host, 3, 2);
    assert_eq!(surface.width(&host), 3);
    assert_eq!(surface.row_bytes(&host), 12);
    assert_eq!(surface.size(&host), 24);

    let bs = surface.as_bitmap_surface().unwrap();
    assert_eq!(bs.raw(), surface.raw());
    assert_eq!(bs.surface().raw(), surface.raw());
    assert_eq!(surface.user_data(), 0);
}

#[test]
fn bitmap_starts_zeroed_and_erases_back_to_zero() {
    let mut host = NativeHost::new();
    let bitmap = Bitmap::new(&mut host, 2, 2, ULBitmapFormat::kBitmapFormat_BGRA8_UNORM_SRGB)
        .unwrap();
    assert_eq!(bitmap.width(&host), 2);
    assert_eq!(bitmap.height(&host), 2);
    assert_eq!(bitmap.format(&host).bytes_per_pixel(), 4);
    assert_eq!(bitmap.row_bytes(&host), 8);
    assert_eq!(bitmap.size(&host), 16);
    assert!(bitmap.owns_pixels(&host));
    assert!(!bitmap.is_empty(&host));

    let guard = bitmap.lock_pixels(&mut host).unwrap();
    guard.write(&mut host, 3, 77);
    guard.unlock(&mut host);
    bitmap.erase(&mut host);
    let guard = bitmap.lock_pixels(&mut host).unwrap();
    assert!(guard.to_vec(&host).iter().all(|b| *b == 0));
    guard.unlock(&mut host);
    bitmap.destroy(&mut host);
}

#[test]
fn channel_swap_exchanges_red_and_blue_in_every_pixel() {
    let mut host = NativeHost::new();
    let data: Vec<u8> = vec![
        1, 2, 3, 4, // pixel 0: b g r a
        5, 6, 7, 8, // pixel 1
    ];
    let bitmap = Bitmap::from_pixels(
        &mut host,
        2,
        1,
        ULBitmapFormat::kBitmapFormat_BGRA8_UNORM_SRGB,
        8,
        &data,
    )
    .unwrap();
    bitmap.swap_red_blue_channels(&mut host);
    let guard = bitmap.lock_pixels(&mut host).unwrap();
    assert_eq!(guard.to_vec(&host), vec![3, 2, 1, 4, 7, 6, 5, 8]);
    guard.unlock(&mut host);
    bitmap.destroy(&mut host);
}

#[test]
fn empty_bitmap_is_empty() {
    let mut host = NativeHost::new();
    let bitmap = Bitmap::empty(&mut host).unwrap();
    assert!(bitmap.is_empty(&host));
    assert_eq!(bitmap.size(&host), 0);
    bitmap.destroy(&mut host);
}

#[test]
fn bitmap_lock_is_not_reentrant() {
    let mut host = NativeHost::new();
    let bitmap = Bitmap::new(&mut host, 1, 1, ULBitmapFormat::kBitmapFormat_A8_UNORM).unwrap();
    let guard = bitmap.lock_pixels(&mut host).unwrap();
    assert!(matches!(
        bitmap.lock_pixels(&mut host),
        Err(Error::NullReference(_))
    ));
    guard.unlock(&mut host);
    bitmap.destroy(&mut host);
}

#[test]
fn buffers_hold_their_bytes() {
    let mut host = NativeHost::new();
    let wrapped = Buffer::new(&mut host, &[1, 2, 3]).unwrap();
    assert_eq!(wrapped.to_vec(&host), vec![1, 2, 3]);
    assert_eq!(wrapped.size(&host), 3);
    assert!(!wrapped.owns_data(&host));
    wrapped.destroy(&mut host);

    let copied = Buffer::from_copy(&mut host, &[9, 8]).unwrap();
    assert!(copied.owns_data(&host));
    assert_eq!(copied.to_vec(&host), vec![9, 8]);
    let addr = copied.raw();
    copied.destroy(&mut host);
    let destroys = host
        .log()
        .iter()
        .filter(|c| matches!(c, NativeCall::DestroyBuffer { addr: a } if *a == addr))
        .count();
    assert_eq!(destroys, 1);
}
