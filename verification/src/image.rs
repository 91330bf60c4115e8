//! Frame buffers: what a clip or a layer renders into.
//!
//! The library keeps the descriptors of the frame buffers it has asked for
//! and refers to each by its handle. The pixels live with whoever renders.

use vstd::prelude::*;
use crate::error::ClipError;

verus! {

/// Width and height of a frame buffer in pixels.
#[derive(Clone, Copy, Debug, PartialEq, Eq, Structural)]
pub struct Extent {
    pub width: u32,
    pub height: u32,
}

/// The pixel format of a frame buffer. There is one: eight bits per channel,
/// in the order blue, green, red, alpha, sRGB encoded.
#[derive(Clone, Copy, Debug, PartialEq, Eq, Structural)]
pub enum TextureFormat {
    Bgra8UnormSrgb,
}

/// What a frame buffer may be used for.
#[derive(Clone, Copy, Debug, PartialEq, Eq, Structural)]
pub struct TextureUsages {
    /// A compositing stage may sample it.
    pub sampled: bool,
    /// A camera may render into it.
    pub render_target: bool,
    /// Pixels may be copied into it.
    pub copy_destination: bool,
}

/// Everything that is fixed about a frame buffer when it is made.
#[derive(Clone, Copy, Debug, PartialEq, Eq, Structural)]
pub struct ImageDescriptor {
    pub size: Extent,
    pub format: TextureFormat,
    pub usage: TextureUsages,
    pub mip_level_count: u32,
    pub sample_count: u32,
}

/// The descriptor of a render target of the given size: the one pixel
/// format, all three usages, one mip level and one sample per pixel.
pub open spec fn render_target_of(size: Extent) -> ImageDescriptor {
    ImageDescriptor {
        size,
        format: TextureFormat::Bgra8UnormSrgb,
        usage: TextureUsages { sampled: true, render_target: true, copy_destination: true },
        mip_level_count: 1,
        sample_count: 1,
    }
}

/// Describes a render target of the given size. A size without pixels is
/// refused.
pub fn render_target_descriptor(size: Extent) -> (made: Result<ImageDescriptor, ClipError>)
    ensures
        size.width == 0 || size.height == 0 ==> made == Err::<ImageDescriptor, ClipError>(
            ClipError::InvalidDimension,
        ),
        size.width != 0 && size.height != 0 ==> made == Ok::<ImageDescriptor, ClipError>(
            render_target_of(size),
        ),
{
    if size.width == 0 || size.height == 0 {
        Err(ClipError::InvalidDimension)
    } else {
        Ok(
            ImageDescriptor {
                size,
                format: TextureFormat::Bgra8UnormSrgb,
                usage: TextureUsages { sampled: true, render_target: true, copy_destination: true },
                mip_level_count: 1,
                sample_count: 1,
            },
        )
    }
}

/// A handle to a frame buffer: its position among those that were made.
#[derive(Clone, Copy, Debug, PartialEq, Eq, Structural)]
pub struct ImageId {
    pub index: usize,
}

/// The frame buffers that were made so far, in the order they were made.
/// A frame buffer is never removed, so a handle stays good.
#[derive(Debug)]
pub struct Images {
    descriptors: Vec<ImageDescriptor>,
}

impl View for Images {
    type V = Seq<ImageDescriptor>;

    closed spec fn view(&self) -> Seq<ImageDescriptor> {
        self.descriptors@
    }
}

impl Images {
    /// No frame buffers yet.
    pub fn new() -> (images: Images)
        ensures
            images@ == Seq::<ImageDescriptor>::empty(),
    {
        Images { descriptors: Vec::new() }
    }

    /// How many frame buffers were made.
    pub fn len(&self) -> (n: usize)
        ensures
            n == self@.len(),
    {
        self.descriptors.len()
    }

    /// Makes a frame buffer and hands out its handle.
    pub fn add(&mut self, descriptor: ImageDescriptor) -> (id: ImageId)
        ensures
            final(self)@ == old(self)@.push(descriptor),
            id.index == old(self)@.len(),
    {
        let index: usize = self.descriptors.len();
        self.descriptors.push(descriptor);
        ImageId { index }
    }

    /// Makes a render target of a size that is known to hold pixels.
    pub(crate) fn add_render_target(&mut self, width: u32, height: u32) -> (id: ImageId)
        requires
            width != 0,
            height != 0,
        ensures
            final(self)@ == old(self)@.push(render_target_of(Extent { width, height })),
            id.index == old(self)@.len(),
    {
        self.add(
            ImageDescriptor {
                size: Extent { width, height },
                format: TextureFormat::Bgra8UnormSrgb,
                usage: TextureUsages { sampled: true, render_target: true, copy_destination: true },
                mip_level_count: 1,
                sample_count: 1,
            },
        )
    }

    /// The descriptor behind a handle, or `None` for a handle that this
    /// store never gave out.
    pub fn get(&self, id: ImageId) -> (found: Option<ImageDescriptor>)
        ensures
            id.index < self@.len() ==> found == Some(self@[id.index as int]),
            id.index >= self@.len() ==> found.is_none(),
    {
        if id.index < self.descriptors.len() {
            Some(self.descriptors[id.index])
        } else {
            None
        }
    }
}

} // verus!
