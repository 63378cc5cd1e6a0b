//! The session's single cached GPU texture and the checks that precede an
//! upload into it.
//!
//! The texture object itself is created, mapped and imported by the host;
//! the cache decides when an existing texture is reused, when it is
//! released, and when a new one must be allocated.
use vstd::prelude::*;

use crate::error::{GpuStep, OverlayError};

verus! {

/// `width * height * 4`, the byte length of a four-channel image.
pub open spec fn rgba_size(width: u32, height: u32) -> int {
    width * height * 4
}

/// Byte length of a `width` x `height` image of four-byte pixels, or
/// `DimensionOverflow` when it does not fit the address space.
pub fn expected_rgba_size(width: u32, height: u32) -> (r: Result<usize, OverlayError>)
    ensures
        rgba_size(width, height) <= usize::MAX ==> r == Ok::<usize, OverlayError>(
            rgba_size(width, height) as usize,
        ),
        rgba_size(width, height) > usize::MAX ==> r == Err::<usize, OverlayError>(
            OverlayError::DimensionOverflow,
        ),
{
    let w = width as usize;
    let h = height as usize;
    match w.checked_mul(h) {
        None => {
            assert(w * h * 4 > usize::MAX) by (nonlinear_arith)
                requires
                    w * h > usize::MAX,
            ;
            Err(OverlayError::DimensionOverflow)
        },
        Some(pixels) => match pixels.checked_mul(4) {
            None => Err(OverlayError::DimensionOverflow),
            Some(bytes) => Ok(bytes),
        },
    }
}

/// Checks a pixel buffer of `buffer_len` bytes against its declared
/// dimensions and returns the expected length.
pub fn check_pixel_buffer(buffer_len: usize, width: u32, height: u32) -> (r: Result<usize, OverlayError>)
    ensures
        rgba_size(width, height) > usize::MAX ==> r == Err::<usize, OverlayError>(
            OverlayError::DimensionOverflow,
        ),
        rgba_size(width, height) <= usize::MAX && buffer_len != rgba_size(width, height) ==> r
            == Err::<usize, OverlayError>(
            OverlayError::BufferSizeMismatch {
                expected: rgba_size(width, height) as usize,
                actual: buffer_len,
            },
        ),
        buffer_len == rgba_size(width, height) ==> r == Ok::<usize, OverlayError>(buffer_len),
{
    let expected = expected_rgba_size(width, height)?;
    if buffer_len != expected {
        return Err(OverlayError::BufferSizeMismatch { expected, actual: buffer_len });
    }
    Ok(expected)
}

/// What the cache asks of the host before the pixels can be written.
#[derive(Clone, Copy, Debug, PartialEq, Eq, Structural)]
pub enum CacheAction {
    /// The cached texture has the requested size: write into it.
    Reuse,
    /// A dimension is zero: the cache was cleared and there is nothing to write.
    Cleared,
    /// The old texture, if any, was released: allocate one of the requested size.
    Allocate,
}

pub open spec fn prepare_action(dims: Option<(u32, u32)>, width: u32, height: u32) -> CacheAction {
    if dims == Some((width, height)) {
        CacheAction::Reuse
    } else if width == 0 || height == 0 {
        CacheAction::Cleared
    } else {
        CacheAction::Allocate
    }
}

pub open spec fn prepare_dims(dims: Option<(u32, u32)>, width: u32, height: u32) -> Option<(u32, u32)> {
    if prepare_action(dims, width, height) == CacheAction::Reuse {
        dims
    } else {
        None
    }
}

/// At most one texture of type `T`, with the dimensions it was provisioned
/// with.
pub struct TextureCache<T> {
    texture: Option<T>,
    width: u32,
    height: u32,
}

impl<T> TextureCache<T> {
    /// Dimensions of the cached texture; `None` when the cache is empty.
    pub closed spec fn dims(&self) -> Option<(u32, u32)> {
        if self.texture.is_some() {
            Some((self.width, self.height))
        } else {
            None
        }
    }

    pub closed spec fn cached(&self) -> Option<T> {
        self.texture
    }

    pub closed spec fn wf(&self) -> bool {
        &&& self.texture.is_none() ==> self.width == 0 && self.height == 0
        &&& self.texture.is_some() ==> self.width > 0 && self.height > 0
    }

    pub fn new() -> (r: Self)
        ensures
            r.wf(),
            r.dims() == None::<(u32, u32)>,
    {
        TextureCache { texture: None, width: 0, height: 0 }
    }

    pub fn dimensions(&self) -> (r: Option<(u32, u32)>)
        ensures
            r == self.dims(),
    {
        if self.texture.is_some() {
            Some((self.width, self.height))
        } else {
            None
        }
    }

    /// The cached texture, if any.
    pub fn texture(&self) -> (r: Option<&T>)
        ensures
            r.is_some() == self.cached().is_some(),
            r.is_some() ==> *r.unwrap() == self.cached().unwrap(),
    {
        match &self.texture {
            Some(t) => Some(t),
            None => None,
        }
    }

    /// Releases the cached texture, if any.
    pub fn reset_texture(&mut self)
        ensures
            final(self).wf(),
            final(self).dims() == None::<(u32, u32)>,
    {
        self.texture = None;
        self.width = 0;
        self.height = 0;
    }

    /// Keeps the texture when it already has the requested size; otherwise
    /// releases it, and says whether a new one must be allocated.
    pub fn ensure_texture(&mut self, width: u32, height: u32) -> (r: CacheAction)
        requires
            old(self).wf(),
        ensures
            final(self).wf(),
            r == prepare_action(old(self).dims(), width, height),
            final(self).dims() == prepare_dims(old(self).dims(), width, height),
            r == CacheAction::Reuse ==> *final(self) == *old(self),
    {
        if self.texture.is_some() && self.width == width && self.height == height {
            return CacheAction::Reuse;
        }
        self.reset_texture();
        if width == 0 || height == 0 {
            CacheAction::Cleared
        } else {
            CacheAction::Allocate
        }
    }

    /// Stores a texture just allocated for `width` x `height`; `None` stands
    /// for a failed allocation, which leaves the cache empty.
    pub fn install(&mut self, allocated: Option<T>, width: u32, height: u32) -> (r: Result<(), OverlayError>)
        requires
            old(self).wf(),
            old(self).dims() == None::<(u32, u32)>,
            width > 0,
            height > 0,
        ensures
            final(self).wf(),
            allocated.is_some() ==> r == Ok::<(), OverlayError>(()) && final(self).dims() == Some(
                (width, height),
            ) && final(self).cached() == allocated,
            allocated.is_none() ==> r == Err::<(), OverlayError>(
                OverlayError::GpuResourceError(GpuStep::Allocate),
            ) && final(self).dims() == None::<(u32, u32)>,
    {
        match allocated {
            Some(t) => {
                self.texture = Some(t);
                self.width = width;
                self.height = height;
                Ok(())
            },
            None => Err(OverlayError::GpuResourceError(GpuStep::Allocate)),
        }
    }

    /// First step of an upload: validates the handle and the buffer, then
    /// provisions the cache. On any error the cache is left as it was.
    pub fn begin_upload(&mut self, handle: i64, buffer_len: usize, width: u32, height: u32) -> (r: Result<
        (u64, CacheAction),
        OverlayError,
    >)
        requires
            old(self).wf(),
        ensures
            final(self).wf(),
            handle < 0 ==> r == Err::<(u64, CacheAction), OverlayError>(
                OverlayError::InvalidOverlayHandle,
            ),
            handle >= 0 && rgba_size(width, height) > usize::MAX ==> r == Err::<
                (u64, CacheAction),
                OverlayError,
            >(OverlayError::DimensionOverflow),
            handle >= 0 && rgba_size(width, height) <= usize::MAX && buffer_len != rgba_size(
                width,
                height,
            ) ==> r == Err::<(u64, CacheAction), OverlayError>(
                OverlayError::BufferSizeMismatch {
                    expected: rgba_size(width, height) as usize,
                    actual: buffer_len,
                },
            ),
            handle >= 0 && buffer_len == rgba_size(width, height) ==> r == Ok::<
                (u64, CacheAction),
                OverlayError,
            >((handle as u64, prepare_action(old(self).dims(), width, height)))
                && final(self).dims() == prepare_dims(old(self).dims(), width, height),
            r.is_err() ==> *final(self) == *old(self),
    {
        if handle < 0 {
            return Err(OverlayError::InvalidOverlayHandle);
        }
        check_pixel_buffer(buffer_len, width, height)?;
        let action = self.ensure_texture(width, height);
        Ok((handle as u64, action))
    }
}

/// Maps the outcome of mapping the texture for CPU write.
pub fn check_mapping(mapped: bool) -> (r: Result<(), OverlayError>)
    ensures
        mapped ==> r == Ok::<(), OverlayError>(()),
        !mapped ==> r == Err::<(), OverlayError>(OverlayError::GpuResourceError(GpuStep::MapForWrite)),
{
    if mapped {
        Ok(())
    } else {
        Err(OverlayError::GpuResourceError(GpuStep::MapForWrite))
    }
}

/// Maps the compositor's status for the imported texture. The cached
/// texture is kept either way.
pub fn check_import(status: u32) -> (r: Result<(), OverlayError>)
    ensures
        status == 0 ==> r == Ok::<(), OverlayError>(()),
        status != 0 ==> r == Err::<(), OverlayError>(OverlayError::CompositorRejectedTexture(status)),
{
    if status == 0 {
        Ok(())
    } else {
        Err(OverlayError::CompositorRejectedTexture(status))
    }
}

/// Dimensions of the cache after one successful upload of `width` x
/// `height`: an allocation, when one was asked for, installs that size.
pub open spec fn provisioned_dims(dims: Option<(u32, u32)>, width: u32, height: u32) -> Option<(u32, u32)> {
    if prepare_action(dims, width, height) == CacheAction::Allocate {
        Some((width, height))
    } else {
        prepare_dims(dims, width, height)
    }
}

/// An upload followed by another of the same non-zero dimensions does not
/// reallocate: whatever was cached before, the second one reuses the
/// texture and keeps the cache as it is.
pub proof fn lemma_same_size_reuses(dims: Option<(u32, u32)>, width: u32, height: u32)
    requires
        width > 0,
        height > 0,
    ensures
        provisioned_dims(dims, width, height) == Some((width, height)),
        prepare_action(provisioned_dims(dims, width, height), width, height) == CacheAction::Reuse,
        prepare_dims(provisioned_dims(dims, width, height), width, height) == provisioned_dims(
            dims,
            width,
            height,
        ),
{
}

/// A request for other non-zero dimensions than the cached ones releases
/// the old texture and asks for exactly one new allocation.
pub proof fn lemma_new_size_reallocates(cached: (u32, u32), width: u32, height: u32)
    requires
        width > 0,
        height > 0,
        cached != (width, height),
    ensures
        prepare_action(Some(cached), width, height) == CacheAction::Allocate,
        prepare_dims(Some(cached), width, height) == None::<(u32, u32)>,
{
}

} // verus!
