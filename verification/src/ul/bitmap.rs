//! Bitmaps and their scoped pixel lock.

use vstd::prelude::*;
use crate::handle::Handle;
use crate::native::CallView;
use crate::native::NativeHost;
use crate::native::ObjView;
use crate::native::bgra_swapped;
use crate::native::format_bpp;
use crate::ul::error::Error;

verus! {

/// The pixel formats of the native API.
#[allow(non_camel_case_types)]
#[derive(Debug, Clone, Copy, PartialEq, Eq, Structural)]
pub enum ULBitmapFormat {
    /// One alpha byte per pixel.
    kBitmapFormat_A8_UNORM,
    /// Four bytes per pixel: blue, green, red, alpha.
    kBitmapFormat_BGRA8_UNORM_SRGB,
}

impl ULBitmapFormat {
    /// The format code crossing the boundary.
    pub open spec fn spec_code(self) -> u32 {
        match self {
            ULBitmapFormat::kBitmapFormat_A8_UNORM => 0u32,
            ULBitmapFormat::kBitmapFormat_BGRA8_UNORM_SRGB => 1u32,
        }
    }

    /// The format code crossing the boundary.
    pub fn code(&self) -> (r: u32)
        ensures
            r == self.spec_code(),
    {
        match self {
            ULBitmapFormat::kBitmapFormat_A8_UNORM => 0,
            ULBitmapFormat::kBitmapFormat_BGRA8_UNORM_SRGB => 1,
        }
    }

    /// Bytes per pixel of this format.
    pub fn bytes_per_pixel(&self) -> (r: u32)
        ensures
            r == format_bpp(self.spec_code()),
    {
        match self {
            ULBitmapFormat::kBitmapFormat_A8_UNORM => 1,
            ULBitmapFormat::kBitmapFormat_BGRA8_UNORM_SRGB => 4,
        }
    }
}

/// A scoped lock over a bitmap's pixel buffer; releasing it makes exactly
/// one native unlock call.
pub struct LockedPixels {
    bitmap: u64,
    size: usize,
}

impl LockedPixels {
    /// The address of the locked bitmap.
    pub closed spec fn bitmap_addr(self) -> u64 {
        self.bitmap
    }

    /// The size of the pixel buffer, queried at lock time.
    pub closed spec fn spec_size(self) -> nat {
        self.size as nat
    }

    /// The size of the locked buffer in bytes.
    pub fn size(&self) -> (r: usize)
        ensures
            r == self.spec_size(),
    {
        self.size
    }

    /// A copy of the locked pixel bytes.
    pub fn to_vec(&self, host: &NativeHost) -> (r: Vec<u8>)
        requires
            host.obj(self.bitmap_addr()) matches Some(ObjView::Bitmap { locked: true, .. }),
        ensures
            host.obj(self.bitmap_addr()) matches Some(ObjView::Bitmap { pixels, .. }) && r@ == pixels,
    {
        host.bitmap_pixels(self.bitmap)
    }

    /// Write one byte of the locked buffer.
    pub fn write(&self, host: &mut NativeHost, index: usize, value: u8)
        requires
            old(host).obj(self.bitmap_addr()) matches Some(ObjView::Bitmap { locked: true, .. }),
            old(host).obj(self.bitmap_addr()) matches Some(ObjView::Bitmap { pixels, .. }) && index < pixels.len(),
        ensures
            final(host).calls() == old(host).calls(),
            final(host).obj(self.bitmap_addr()) == match old(host).obj(self.bitmap_addr()) {
                Some(ObjView::Bitmap { width, height, format, row_bytes, pixels, locked, owns_pixels }) =>
                    Some(ObjView::Bitmap { width, height, format, row_bytes, pixels: pixels.update(index as int, value), locked, owns_pixels }),
                other => other,
            },
            final(host).objs_same_except(*old(host), self.bitmap_addr()),
            final(host).allocated() == old(host).allocated(),
            final(host).create_staged_to_fail() == old(host).create_staged_to_fail(),
    {
        host.bitmap_write_pixel(self.bitmap, index, value);
    }

    /// Release the lock: exactly one native unlock call.
    pub fn unlock(self, host: &mut NativeHost)
        requires
            old(host).obj(self.bitmap_addr()) matches Some(ObjView::Bitmap { .. }),
        ensures
            final(host).calls() == old(host).calls().push(CallView::BitmapUnlockPixels { addr: self.bitmap_addr() }),
            final(host).obj(self.bitmap_addr()) == match old(host).obj(self.bitmap_addr()) {
                Some(ObjView::Bitmap { width, height, format, row_bytes, pixels, locked: _, owns_pixels }) =>
                    Some(ObjView::Bitmap { width, height, format, row_bytes, pixels, locked: false, owns_pixels }),
                other => other,
            },
            final(host).objs_same_except(*old(host), self.bitmap_addr()),
            final(host).allocated() == old(host).allocated(),
            final(host).create_staged_to_fail() == old(host).create_staged_to_fail(),
    {
        host.bitmap_unlock_pixels(self.bitmap);
    }
}

/// A wrapper around one native bitmap. Owned bitmaps are destroyed exactly
/// once; borrowed ones never trigger a destroy call.
pub struct Bitmap {
    handle: Handle,
    owned: bool,
}

impl Bitmap {
    /// The native address of this bitmap.
    pub closed spec fn addr(self) -> u64 {
        self.handle.raw_addr()
    }

    /// Whether this wrapper owns the native bitmap.
    pub closed spec fn spec_owned(self) -> bool {
        self.owned
    }

    /// Wrap a raw bitmap address; fails on null.
    pub fn from_raw(raw: u64, owned: bool) -> (r: Option<Bitmap>)
        ensures
            r is Some <==> raw != 0,
            r matches Some(b) ==> b.addr() == raw && b.spec_owned() == owned,
    {
        let handle = if owned {
            Handle::owning(raw)
        } else {
            Handle::borrowed(raw)
        };
        match handle {
            Some(handle) => Some(Bitmap { handle, owned }),
            None => None,
        }
    }

    /// Create a bitmap of the given size and format, zeroed.
    ///
    /// Fails with `CreationFailed` exactly when the native layer hands back
    /// null.
    pub fn new(host: &mut NativeHost, width: u32, height: u32, format: ULBitmapFormat) -> (r: Result<Bitmap, Error>)
        requires
            (width as nat) * (height as nat) * format_bpp(format.spec_code()) <= u32::MAX as nat,
            (width as nat) * format_bpp(format.spec_code()) <= u32::MAX as nat,
        ensures
            r is Ok <==> old(host).create_succeeds(),
            r matches Ok(b) ==> {
                &&& b.spec_owned()
                &&& b.addr() != 0
                &&& !old(host).live(b.addr())
                &&& final(host).obj(b.addr()) == Some(ObjView::Bitmap {
                    width,
                    height,
                    format: format.spec_code(),
                    row_bytes: ((width as nat) * format_bpp(format.spec_code())) as u32,
                    pixels: Seq::new((width as nat) * (height as nat) * format_bpp(format.spec_code()), |i: int| 0u8),
                    locked: false,
                    owns_pixels: true,
                })
                &&& final(host).calls() == old(host).calls().push(CallView::CreateBitmap { addr: b.addr(), width, height, format: format.spec_code() })
                &&& final(host).objs_same_except(*old(host), b.addr())
                &&& final(host).allocated() == old(host).allocated() + 1
            },
            r is Err ==> {
                &&& r == Err::<Bitmap, Error>(Error::CreationFailed("Failed to create bitmap"))
                &&& final(host).calls() == old(host).calls().push(CallView::CreateBitmap { addr: 0, width, height, format: format.spec_code() })
                &&& final(host).objs_same(*old(host))
            },
    {
        let raw = host.create_bitmap(width, height, format.code());
        match Bitmap::from_raw(raw, true) {
            Some(b) => Ok(b),
            None => Err(Error::CreationFailed("Failed to create bitmap")),
        }
    }

    /// Create an empty zero-by-zero bitmap.
    pub fn empty(host: &mut NativeHost) -> (r: Result<Bitmap, Error>)
        ensures
            r is Ok <==> old(host).create_succeeds(),
            r matches Ok(b) ==> {
                &&& b.spec_owned()
                &&& b.addr() != 0
                &&& final(host).obj(b.addr()) matches Some(ObjView::Bitmap { width: 0u32, height: 0u32, pixels, .. }) && pixels.len() == 0
                &&& final(host).objs_same_except(*old(host), b.addr())
            },
            r is Err ==> final(host).objs_same(*old(host)),
    {
        proof {
            assert(Seq::new(0nat, |i: int| 0u8) =~= Seq::<u8>::empty());
        }
        Bitmap::new(host, 0, 0, ULBitmapFormat::kBitmapFormat_BGRA8_UNORM_SRGB)
    }

    /// Create a bitmap from existing pixel data, copied into the native
    /// buffer.
    pub fn from_pixels(host: &mut NativeHost, width: u32, height: u32, format: ULBitmapFormat, row_bytes: u32, pixels: &[u8]) -> (r: Result<Bitmap, Error>)
        ensures
            r is Ok <==> old(host).create_succeeds(),
            r matches Ok(b) ==> {
                &&& b.spec_owned()
                &&& b.addr() != 0
                &&& !old(host).live(b.addr())
                &&& final(host).obj(b.addr()) == Some(ObjView::Bitmap {
                    width,
                    height,
                    format: format.spec_code(),
                    row_bytes,
                    pixels: pixels@,
                    locked: false,
                    owns_pixels: true,
                })
                &&& final(host).calls() == old(host).calls().push(CallView::CreateBitmap { addr: b.addr(), width, height, format: format.spec_code() })
                &&& final(host).objs_same_except(*old(host), b.addr())
            },
            r is Err ==> {
                &&& r == Err::<Bitmap, Error>(Error::CreationFailed("Failed to create bitmap"))
                &&& final(host).objs_same(*old(host))
            },
    {
        let raw = host.create_bitmap_from_pixels(width, height, format.code(), row_bytes, pixels);
        match Bitmap::from_raw(raw, true) {
            Some(b) => Ok(b),
            None => Err(Error::CreationFailed("Failed to create bitmap")),
        }
    }

    /// The raw native address, for handing back across the boundary.
    pub fn raw(&self) -> (r: u64)
        ensures
            r == self.addr(),
            r != 0,
    {
        self.handle.raw()
    }

    /// The bitmap's width in pixels.
    pub fn width(&self, host: &NativeHost) -> (r: u32)
        requires
            host.obj(self.addr()) matches Some(ObjView::Bitmap { .. }),
        ensures
            host.obj(self.addr()) matches Some(ObjView::Bitmap { width, .. }) && r == width,
    {
        let g = host.bitmap_geometry(self.handle.raw());
        g.0
    }

    /// The bitmap's height in pixels.
    pub fn height(&self, host: &NativeHost) -> (r: u32)
        requires
            host.obj(self.addr()) matches Some(ObjView::Bitmap { .. }),
        ensures
            host.obj(self.addr()) matches Some(ObjView::Bitmap { height, .. }) && r == height,
    {
        let g = host.bitmap_geometry(self.handle.raw());
        g.1
    }

    /// The bitmap's format.
    pub fn format(&self, host: &NativeHost) -> (r: ULBitmapFormat)
        requires
            host.obj(self.addr()) matches Some(ObjView::Bitmap { .. }),
        ensures
            host.obj(self.addr()) matches Some(ObjView::Bitmap { format, .. }) && (r.spec_code() == format || (format > 1 && r.spec_code() == 1)),
    {
        let g = host.bitmap_geometry(self.handle.raw());
        if g.2 == 0 {
            ULBitmapFormat::kBitmapFormat_A8_UNORM
        } else {
            ULBitmapFormat::kBitmapFormat_BGRA8_UNORM_SRGB
        }
    }

    /// The number of bytes per row.
    pub fn row_bytes(&self, host: &NativeHost) -> (r: u32)
        requires
            host.obj(self.addr()) matches Some(ObjView::Bitmap { .. }),
        ensures
            host.obj(self.addr()) matches Some(ObjView::Bitmap { row_bytes, .. }) && r == row_bytes,
    {
        let g = host.bitmap_geometry(self.handle.raw());
        g.3
    }

    /// The size of the pixel buffer in bytes.
    pub fn size(&self, host: &NativeHost) -> (r: usize)
        requires
            host.obj(self.addr()) matches Some(ObjView::Bitmap { .. }),
        ensures
            host.obj(self.addr()) matches Some(ObjView::Bitmap { pixels, .. }) && r == pixels.len(),
    {
        host.bitmap_size(self.handle.raw())
    }

    /// Whether the bitmap owns its pixel buffer.
    pub fn owns_pixels(&self, host: &NativeHost) -> (r: bool)
        requires
            host.obj(self.addr()) matches Some(ObjView::Bitmap { .. }),
        ensures
            host.obj(self.addr()) matches Some(ObjView::Bitmap { owns_pixels, .. }) && r == owns_pixels,
    {
        host.bitmap_owns_pixels(self.handle.raw())
    }

    /// Whether the bitmap holds no pixels.
    pub fn is_empty(&self, host: &NativeHost) -> (r: bool)
        requires
            host.obj(self.addr()) matches Some(ObjView::Bitmap { .. }),
        ensures
            host.obj(self.addr()) matches Some(ObjView::Bitmap { pixels, .. }) && r == (pixels.len() == 0),
    {
        host.bitmap_size(self.handle.raw()) == 0
    }

    /// Lock the pixel buffer; the native lock is not reentrant, so this
    /// fails with `NullReference` exactly when the bitmap is already locked.
    pub fn lock_pixels(&self, host: &mut NativeHost) -> (r: Result<LockedPixels, Error>)
        requires
            old(host).obj(self.addr()) matches Some(ObjView::Bitmap { .. }),
        ensures
            old(host).obj(self.addr()) matches Some(ObjView::Bitmap { locked, .. }) && (r is Ok <==> !locked),
            final(host).calls() == old(host).calls().push(CallView::BitmapLockPixels { addr: self.addr(), ok: r is Ok }),
            r matches Ok(g) ==> {
                &&& g.bitmap_addr() == self.addr()
                &&& (old(host).obj(self.addr()) matches Some(ObjView::Bitmap { pixels, .. }) && g.spec_size() == pixels.len())
                &&& final(host).obj(self.addr()) == match old(host).obj(self.addr()) {
                    Some(ObjView::Bitmap { width, height, format, row_bytes, pixels, locked: _, owns_pixels }) =>
                        Some(ObjView::Bitmap { width, height, format, row_bytes, pixels, locked: true, owns_pixels }),
                    other => other,
                }
            },
            r is Err ==> {
                &&& r == Err::<LockedPixels, Error>(Error::NullReference("Failed to lock bitmap pixels"))
                &&& final(host).obj(self.addr()) == old(host).obj(self.addr())
            },
            final(host).objs_same_except(*old(host), self.addr()),
            final(host).allocated() == old(host).allocated(),
            final(host).create_staged_to_fail() == old(host).create_staged_to_fail(),
    {
        let size = host.bitmap_size(self.handle.raw());
        let ok = host.bitmap_lock_pixels(self.handle.raw());
        if ok {
            Ok(LockedPixels { bitmap: self.handle.raw(), size })
        } else {
            Err(Error::NullReference("Failed to lock bitmap pixels"))
        }
    }

    /// Reset every pixel byte to zero.
    pub fn erase(&self, host: &mut NativeHost)
        requires
            old(host).obj(self.addr()) matches Some(ObjView::Bitmap { .. }),
        ensures
            final(host).calls() == old(host).calls().push(CallView::BitmapErase { addr: self.addr() }),
            final(host).obj(self.addr()) == match old(host).obj(self.addr()) {
                Some(ObjView::Bitmap { width, height, format, row_bytes, pixels, locked, owns_pixels }) =>
                    Some(ObjView::Bitmap { width, height, format, row_bytes, pixels: Seq::new(pixels.len(), |i: int| 0u8), locked, owns_pixels }),
                other => other,
            },
            final(host).objs_same_except(*old(host), self.addr()),
            final(host).allocated() == old(host).allocated(),
            final(host).create_staged_to_fail() == old(host).create_staged_to_fail(),
    {
        host.bitmap_erase(self.handle.raw());
    }

    /// Exchange the red and blue channel of every BGRA pixel.
    pub fn swap_red_blue_channels(&self, host: &mut NativeHost)
        requires
            old(host).obj(self.addr()) matches Some(ObjView::Bitmap { pixels, .. }) && pixels.len() % 4 == 0,
        ensures
            final(host).calls() == old(host).calls().push(CallView::BitmapSwapRedBlue { addr: self.addr() }),
            final(host).obj(self.addr()) == match old(host).obj(self.addr()) {
                Some(ObjView::Bitmap { width, height, format, row_bytes, pixels, locked, owns_pixels }) =>
                    Some(ObjView::Bitmap { width, height, format, row_bytes, pixels: bgra_swapped(pixels), locked, owns_pixels }),
                other => other,
            },
            final(host).objs_same_except(*old(host), self.addr()),
            final(host).allocated() == old(host).allocated(),
            final(host).create_staged_to_fail() == old(host).create_staged_to_fail(),
    {
        host.bitmap_swap_red_blue(self.handle.raw());
    }

    /// Tear down this wrapper; an owned bitmap makes exactly one native
    /// destroy call, a borrowed one makes none.
    pub fn destroy(self, host: &mut NativeHost)
        ensures
            self.spec_owned() ==> {
                &&& final(host).calls() == old(host).calls().push(CallView::DestroyBitmap { addr: self.addr() })
                &&& final(host).obj(self.addr()) is None
                &&& final(host).objs_same_except(*old(host), self.addr())
            },
            !self.spec_owned() ==> *final(host) == *old(host),
            final(host).allocated() == old(host).allocated(),
            final(host).create_staged_to_fail() == old(host).create_staged_to_fail(),
    {
        if self.owned {
            host.destroy_bitmap(self.handle.raw());
        }
    }
}

} // verus!
