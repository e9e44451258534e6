//! Surfaces holding CPU-rendered pixels, and the scoped pixel lock.

use vstd::prelude::*;
use crate::handle::Handle;
use crate::native::CallView;
use crate::native::NativeHost;
use crate::native::ObjView;
use crate::ul::error::Error;
use crate::ul::geometry::IntRect;

verus! {

/// A scoped lock over a surface's pixel buffer.
///
/// Acquired by [`Surface::lock_pixels`]; the raw buffer may only be touched
/// through it. Consuming it with [`LockedPixels::unlock`] makes exactly one
/// native unlock call, so every lock is paired with exactly one unlock.
pub struct LockedPixels {
    surface: u64,
    size: usize,
}

impl LockedPixels {
    /// The address of the locked surface.
    pub closed spec fn surface_addr(self) -> u64 {
        self.surface
    }

    /// The size of the pixel buffer, queried at lock time.
    pub closed spec fn spec_size(self) -> nat {
        self.size as nat
    }

    /// The size of the locked buffer in bytes.
    pub fn size(&self) -> (r: usize)
        ensures
            r == self.spec_size(),
    {
        self.size
    }

    /// A copy of the locked pixel bytes.
    pub fn to_vec(&self, host: &NativeHost) -> (r: Vec<u8>)
        requires
            host.obj(self.surface_addr()) matches Some(ObjView::Surface { locked: true, .. }),
        ensures
            host.obj(self.surface_addr()) matches Some(ObjView::Surface { pixels, .. }) && r@ == pixels,
    {
        host.surface_pixels(self.surface)
    }

    /// Write one byte of the locked buffer.
    pub fn write(&self, host: &mut NativeHost, index: usize, value: u8)
        requires
            old(host).obj(self.surface_addr()) matches Some(ObjView::Surface { locked: true, .. }),
            old(host).obj(self.surface_addr()) matches Some(ObjView::Surface { pixels, .. }) && index < pixels.len(),
        ensures
            final(host).calls() == old(host).calls(),
            final(host).obj(self.surface_addr()) == match old(host).obj(self.surface_addr()) {
                Some(ObjView::Surface { width, height, row_bytes, pixels, locked, dirty }) =>
                    Some(ObjView::Surface { width, height, row_bytes, pixels: pixels.update(index as int, value), locked, dirty }),
                other => other,
            },
            final(host).objs_same_except(*old(host), self.surface_addr()),
            final(host).allocated() == old(host).allocated(),
            final(host).create_staged_to_fail() == old(host).create_staged_to_fail(),
    {
        host.surface_write_pixel(self.surface, index, value);
    }

    /// Release the lock: exactly one native unlock call, after which the
    /// surface can be locked again.
    pub fn unlock(self, host: &mut NativeHost)
        requires
            old(host).obj(self.surface_addr()) matches Some(ObjView::Surface { .. }),
        ensures
            final(host).calls() == old(host).calls().push(CallView::SurfaceUnlockPixels { addr: self.surface_addr() }),
            final(host).obj(self.surface_addr()) == match old(host).obj(self.surface_addr()) {
                Some(ObjView::Surface { width, height, row_bytes, pixels, locked: _, dirty }) =>
                    Some(ObjView::Surface { width, height, row_bytes, pixels, locked: false, dirty }),
                other => other,
            },
            final(host).objs_same_except(*old(host), self.surface_addr()),
            final(host).allocated() == old(host).allocated(),
            final(host).create_staged_to_fail() == old(host).create_staged_to_fail(),
    {
        host.surface_unlock_pixels(self.surface);
    }
}

/// A borrowed wrapper around one native surface; the view that issued it
/// keeps ownership.
pub struct Surface {
    handle: Handle,
}

impl Surface {
    /// The native address of this surface.
    pub closed spec fn addr(self) -> u64 {
        self.handle.raw_addr()
    }

    /// Wrap a raw surface address as a borrowed wrapper; fails on null.
    pub fn from_raw(raw: u64) -> (r: Option<Surface>)
        ensures
            r is Some <==> raw != 0,
            r matches Some(s) ==> s.addr() == raw,
    {
        match Handle::borrowed(raw) {
            Some(handle) => Some(Surface { handle }),
            None => None,
        }
    }

    /// The raw native address, for handing back across the boundary.
    pub fn raw(&self) -> (r: u64)
        ensures
            r == self.addr(),
            r != 0,
    {
        self.handle.raw()
    }

    /// The surface's width in pixels.
    pub fn width(&self, host: &NativeHost) -> (r: u32)
        requires
            host.obj(self.addr()) matches Some(ObjView::Surface { .. }),
        ensures
            host.obj(self.addr()) matches Some(ObjView::Surface { width, .. }) && r == width,
    {
        host.surface_width(self.handle.raw())
    }

    /// The surface's height in pixels.
    pub fn height(&self, host: &NativeHost) -> (r: u32)
        requires
            host.obj(self.addr()) matches Some(ObjView::Surface { .. }),
        ensures
            host.obj(self.addr()) matches Some(ObjView::Surface { height, .. }) && r == height,
    {
        host.surface_height(self.handle.raw())
    }

    /// The number of bytes per row.
    pub fn row_bytes(&self, host: &NativeHost) -> (r: u32)
        requires
            host.obj(self.addr()) matches Some(ObjView::Surface { .. }),
        ensures
            host.obj(self.addr()) matches Some(ObjView::Surface { row_bytes, .. }) && r == row_bytes,
    {
        host.surface_row_bytes(self.handle.raw())
    }

    /// The size of the pixel buffer in bytes.
    pub fn size(&self, host: &NativeHost) -> (r: usize)
        requires
            host.obj(self.addr()) matches Some(ObjView::Surface { .. }),
        ensures
            host.obj(self.addr()) matches Some(ObjView::Surface { pixels, .. }) && r == pixels.len(),
    {
        host.surface_size(self.handle.raw())
    }

    /// Lock the pixel buffer.
    ///
    /// The native lock is not reentrant: it hands back null exactly when the
    /// surface is already locked, which surfaces here as `NullReference`.
    /// On success the guard records the buffer size queried at lock time.
    pub fn lock_pixels(&self, host: &mut NativeHost) -> (r: Result<LockedPixels, Error>)
        requires
            old(host).obj(self.addr()) matches Some(ObjView::Surface { .. }),
        ensures
            old(host).obj(self.addr()) matches Some(ObjView::Surface { locked, .. }) && (r is Ok <==> !locked),
            final(host).calls() == old(host).calls().push(CallView::SurfaceLockPixels { addr: self.addr(), ok: r is Ok }),
            r matches Ok(g) ==> {
                &&& g.surface_addr() == self.addr()
                &&& (old(host).obj(self.addr()) matches Some(ObjView::Surface { pixels, .. }) && g.spec_size() == pixels.len())
                &&& final(host).obj(self.addr()) == match old(host).obj(self.addr()) {
                    Some(ObjView::Surface { width, height, row_bytes, pixels, locked: _, dirty }) =>
                        Some(ObjView::Surface { width, height, row_bytes, pixels, locked: true, dirty }),
                    other => other,
                }
            },
            r is Err ==> {
                &&& r == Err::<LockedPixels, Error>(Error::NullReference("Failed to lock surface pixels"))
                &&& final(host).obj(self.addr()) == old(host).obj(self.addr())
            },
            final(host).objs_same_except(*old(host), self.addr()),
            final(host).allocated() == old(host).allocated(),
            final(host).create_staged_to_fail() == old(host).create_staged_to_fail(),
    {
        let size = host.surface_size(self.handle.raw());
        let ok = host.surface_lock_pixels(self.handle.raw());
        if ok {
            Ok(LockedPixels { surface: self.handle.raw(), size })
        } else {
            Err(Error::NullReference("Failed to lock surface pixels"))
        }
    }

    /// Resize the surface; the buffer is reallocated at four bytes per
    /// pixel and zeroed.
    pub fn resize(&self, host: &mut NativeHost, width: u32, height: u32)
        requires
            old(host).obj(self.addr()) matches Some(ObjView::Surface { .. }),
            (width as nat) * 4 <= u32::MAX as nat,
            (width as nat) * 4 * (height as nat) <= u32::MAX as nat,
        ensures
            final(host).calls() == old(host).calls().push(CallView::SurfaceResize { addr: self.addr(), width, height }),
            final(host).obj(self.addr()) == match old(host).obj(self.addr()) {
                Some(ObjView::Surface { width: _, height: _, row_bytes: _, pixels: _, locked, dirty }) =>
                    Some(ObjView::Surface {
                        width,
                        height,
                        row_bytes: (width * 4) as u32,
                        pixels: Seq::new((width as nat) * 4 * (height as nat), |i: int| 0u8),
                        locked,
                        dirty,
                    }),
                other => other,
            },
            final(host).objs_same_except(*old(host), self.addr()),
            final(host).allocated() == old(host).allocated(),
            final(host).create_staged_to_fail() == old(host).create_staged_to_fail(),
    {
        host.surface_resize(self.handle.raw(), width, height);
    }

    /// Set the dirty bounds of the surface.
    pub fn set_dirty_bounds(&self, host: &mut NativeHost, bounds: IntRect)
        requires
            old(host).obj(self.addr()) matches Some(ObjView::Surface { .. }),
        ensures
            final(host).calls() == old(host).calls().push(CallView::SurfaceSetDirtyBounds {
                addr: self.addr(), left: bounds.left, top: bounds.top, right: bounds.right, bottom: bounds.bottom,
            }),
            final(host).obj(self.addr()) == match old(host).obj(self.addr()) {
                Some(ObjView::Surface { width, height, row_bytes, pixels, locked, dirty: _ }) =>
                    Some(ObjView::Surface { width, height, row_bytes, pixels, locked, dirty: (bounds.left, bounds.top, bounds.right, bounds.bottom) }),
                other => other,
            },
            final(host).objs_same_except(*old(host), self.addr()),
            final(host).allocated() == old(host).allocated(),
            final(host).create_staged_to_fail() == old(host).create_staged_to_fail(),
    {
        host.surface_set_dirty_bounds(self.handle.raw(), (bounds.left, bounds.top, bounds.right, bounds.bottom));
    }

    /// Get the dirty bounds of the surface.
    pub fn dirty_bounds(&self, host: &NativeHost) -> (r: IntRect)
        requires
            host.obj(self.addr()) matches Some(ObjView::Surface { .. }),
        ensures
            host.obj(self.addr()) matches Some(ObjView::Surface { dirty, .. })
                && r == (IntRect { left: dirty.0, top: dirty.1, right: dirty.2, bottom: dirty.3 }),
    {
        let d = host.surface_dirty_bounds(self.handle.raw());
        IntRect { left: d.0, top: d.1, right: d.2, bottom: d.3 }
    }

    /// Clear the dirty bounds of the surface.
    pub fn clear_dirty_bounds(&self, host: &mut NativeHost)
        requires
            old(host).obj(self.addr()) matches Some(ObjView::Surface { .. }),
        ensures
            final(host).calls() == old(host).calls().push(CallView::SurfaceClearDirtyBounds { addr: self.addr() }),
            final(host).obj(self.addr()) == match old(host).obj(self.addr()) {
                Some(ObjView::Surface { width, height, row_bytes, pixels, locked, dirty: _ }) =>
                    Some(ObjView::Surface { width, height, row_bytes, pixels, locked, dirty: (0i32, 0i32, 0i32, 0i32) }),
                other => other,
            },
            final(host).objs_same_except(*old(host), self.addr()),
            final(host).allocated() == old(host).allocated(),
            final(host).create_staged_to_fail() == old(host).create_staged_to_fail(),
    {
        host.surface_clear_dirty_bounds(self.handle.raw());
    }

    /// The user-data pointer of custom surface implementations; the built-in
    /// CPU surface carries none.
    pub fn user_data(&self) -> (r: u64)
        ensures
            r == 0,
    {
        0
    }

    /// Cast this surface to a bitmap-backed surface. Succeeds exactly when
    /// the surface carries no custom user data, which holds for every
    /// built-in CPU surface.
    pub fn as_bitmap_surface(&self) -> (r: Option<BitmapSurface>)
        ensures
            r matches Some(b) ==> b.addr() == self.addr(),
            r is Some,
    {
        match Surface::from_raw(self.handle.raw()) {
            Some(surface) => Some(BitmapSurface { surface }),
            None => None,
        }
    }
}

/// A surface known to be backed by a bitmap.
pub struct BitmapSurface {
    surface: Surface,
}

impl BitmapSurface {
    /// The native address of the underlying surface.
    pub closed spec fn addr(self) -> u64 {
        self.surface.addr()
    }

    /// The underlying surface.
    pub fn surface(&self) -> (r: &Surface)
        ensures
            r.addr() == self.addr(),
    {
        &self.surface
    }

    /// The raw native address, for handing back across the boundary.
    pub fn raw(&self) -> (r: u64)
        ensures
            r == self.addr(),
            r != 0,
    {
        self.surface.raw()
    }
}

/// The scoped-lock law: reading one pixel locks the buffer, checks the
/// index, and unlocks on the success path and on the error path alike.
/// Whenever the lock was acquired, exactly one matching unlock follows it in
/// the log, and the surface always ends up unlocked.
pub fn read_pixel(surface: &Surface, host: &mut NativeHost, index: usize) -> (r: Result<u8, Error>)
    requires
        old(host).obj(surface.addr()) matches Some(ObjView::Surface { locked: false, .. }),
    ensures
        final(host).obj(surface.addr()) matches Some(ObjView::Surface { locked, .. }) && !locked,
        old(host).obj(surface.addr()) matches Some(ObjView::Surface { pixels, .. }) && {
            &&& r is Ok <==> index < pixels.len()
            &&& r matches Ok(v) ==> v == pixels[index as int]
            &&& r is Err ==> r == Err::<u8, Error>(Error::InvalidArgument("Pixel index out of bounds"))
        },
        final(host).calls() == old(host).calls()
            .push(CallView::SurfaceLockPixels { addr: surface.addr(), ok: true })
            .push(CallView::SurfaceUnlockPixels { addr: surface.addr() }),
        final(host).obj(surface.addr()) == old(host).obj(surface.addr()),
        final(host).objs_same(*old(host)),
        final(host).allocated() == old(host).allocated(),
        final(host).create_staged_to_fail() == old(host).create_staged_to_fail(),
{
    let guard = match surface.lock_pixels(host) {
        Ok(g) => g,
        Err(_) => {
            return Err(Error::InvalidArgument("Pixel index out of bounds"));
        },
    };
    if index >= guard.size() {
        guard.unlock(host);
        return Err(Error::InvalidArgument("Pixel index out of bounds"));
    }
    let bytes = guard.to_vec(host);
    let value = bytes[index];
    guard.unlock(host);
    Ok(value)
}

} // verus!
