//! The frame buffer that the result is shown from.

use vstd::prelude::*;
use crate::error::ClipError;
use crate::image::{render_target_descriptor, render_target_of, Extent, ImageId, Images};

verus! {

/// The frame buffer that the layers render into in the end, and that is
/// put on the screen.
#[derive(Clone, Copy, Debug, PartialEq, Eq, Structural)]
pub struct OutputTarget {
    pub render_target: ImageId,
}

impl OutputTarget {
    /// Makes the output frame buffer. A size without pixels is refused, and
    /// then nothing is made.
    pub fn new(size: Extent, images: &mut Images) -> (made: Result<OutputTarget, ClipError>)
        ensures
            size.width == 0 || size.height == 0 ==> {
                &&& made == Err::<OutputTarget, ClipError>(ClipError::InvalidDimension)
                &&& final(images)@ == old(images)@
            },
            size.width != 0 && size.height != 0 ==> {
                &&& made.is_ok()
                &&& made.unwrap().render_target.index == old(images)@.len()
                &&& final(images)@ == old(images)@.push(render_target_of(size))
            },
    {
        match render_target_descriptor(size) {
            Err(e) => Err(e),
            Ok(descriptor) => Ok(OutputTarget { render_target: images.add(descriptor) }),
        }
    }
}

} // verus!
