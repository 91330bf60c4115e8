//! Clips: named visual sources, each with a frame buffer of its own.

use vstd::prelude::*;
use crate::error::ClipError;
use crate::image::{render_target_descriptor, render_target_of, Extent, ImageId, Images};

verus! {

/// Hands out visibility scopes, each of them once.
#[derive(Debug)]
pub struct ClipVisibilityLayerAllocator {
    next: usize,
}

impl ClipVisibilityLayerAllocator {
    /// How many scopes were handed out; also the scope that comes next.
    pub closed spec fn issued(&self) -> nat {
        self.next as nat
    }

    /// An allocator that has handed out nothing.
    pub fn new() -> (allocator: ClipVisibilityLayerAllocator)
        ensures
            allocator.issued() == 0,
    {
        ClipVisibilityLayerAllocator { next: 0 }
    }

    /// Whether another scope can be handed out.
    pub fn has_room(&self) -> (room: bool)
        ensures
            room == (self.issued() < usize::MAX),
    {
        self.next < usize::MAX
    }

    /// Hands out the next scope. Scopes count up from zero, so none comes
    /// twice.
    pub fn get(&mut self) -> (scope: usize)
        requires
            old(self).issued() < usize::MAX,
        ensures
            scope == old(self).issued(),
            final(self).issued() == old(self).issued() + 1,
    {
        let scope: usize = self.next;
        self.next = self.next + 1;
        scope
    }
}

/// A visual source. It renders into its frame buffer; a layer that selects
/// it blends that buffer into the output.
#[derive(Debug)]
pub struct Clip {
    display_name: String,
    /// The frame buffer this clip renders into.
    pub render_target: ImageId,
    active: bool,
    clip_visibility_layer: usize,
}

/// What a clip holds.
pub ghost struct ClipView {
    pub display_name: Seq<char>,
    pub render_target: ImageId,
    pub active: bool,
    pub clip_visibility_layer: usize,
}

impl View for Clip {
    type V = ClipView;

    closed spec fn view(&self) -> ClipView {
        ClipView {
            display_name: self.display_name@,
            render_target: self.render_target,
            active: self.active,
            clip_visibility_layer: self.clip_visibility_layer,
        }
    }
}

impl Clip {
    /// Makes a clip with a frame buffer of the given size and a visibility
    /// scope of its own. The clip starts out active. A size without pixels
    /// is refused, and then nothing is made and no scope is used up.
    pub fn new(
        display_name: String,
        images: &mut Images,
        size: Extent,
        clip_visibility_layer_allocator: &mut ClipVisibilityLayerAllocator,
    ) -> (made: Result<Clip, ClipError>)
        requires
            old(clip_visibility_layer_allocator).issued() < usize::MAX,
        ensures
            size.width == 0 || size.height == 0 ==> {
                &&& made == Err::<Clip, ClipError>(ClipError::InvalidDimension)
                &&& final(images)@ == old(images)@
                &&& final(clip_visibility_layer_allocator).issued() == old(
                    clip_visibility_layer_allocator,
                ).issued()
            },
            size.width != 0 && size.height != 0 ==> {
                &&& made.is_ok()
                &&& made.unwrap()@.display_name == display_name@
                &&& made.unwrap()@.render_target.index == old(images)@.len()
                &&& made.unwrap()@.active
                &&& made.unwrap()@.clip_visibility_layer == old(
                    clip_visibility_layer_allocator,
                ).issued()
                &&& final(images)@ == old(images)@.push(render_target_of(size))
                &&& final(clip_visibility_layer_allocator).issued() == old(
                    clip_visibility_layer_allocator,
                ).issued() + 1
            },
    {
        match render_target_descriptor(size) {
            Err(e) => Err(e),
            Ok(descriptor) => {
                let render_target: ImageId = images.add(descriptor);
                let clip_visibility_layer: usize = clip_visibility_layer_allocator.get();
                Ok(Clip { display_name, render_target, active: true, clip_visibility_layer })
            },
        }
    }

    /// Makes a clip around a frame buffer that exists already, with a
    /// visibility scope of its own. The clip starts out active.
    pub fn from_image(
        display_name: String,
        image: ImageId,
        clip_visibility_layer_allocator: &mut ClipVisibilityLayerAllocator,
    ) -> (clip: Clip)
        requires
            old(clip_visibility_layer_allocator).issued() < usize::MAX,
        ensures
            clip@.display_name == display_name@,
            clip@.render_target == image,
            clip@.active,
            clip@.clip_visibility_layer == old(clip_visibility_layer_allocator).issued(),
            final(clip_visibility_layer_allocator).issued() == old(
                clip_visibility_layer_allocator,
            ).issued() + 1,
    {
        let clip_visibility_layer: usize = clip_visibility_layer_allocator.get();
        Clip { display_name, render_target: image, active: true, clip_visibility_layer }
    }

    /// The frame buffer this clip renders into.
    pub fn target(&self) -> (target: ImageId)
        ensures
            target == self@.render_target,
    {
        self.render_target
    }

    /// The name this clip is shown under.
    pub fn get_display_name(&self) -> (name: String)
        ensures
            name@ == self@.display_name,
    {
        self.display_name.clone()
    }

    /// Whether the clip is in use. The flag is advice to whoever fills the
    /// clip; nothing in the library depends on it.
    pub fn is_active(&self) -> (active: bool)
        ensures
            active == self@.active,
    {
        self.active
    }

    /// Sets the flag and nothing else.
    pub fn set_active(&mut self, active: bool)
        ensures
            final(self)@ == (ClipView { active, ..old(self)@ }),
    {
        self.active = active
    }

    /// Marks the clip as in use.
    pub fn activate(&mut self)
        ensures
            final(self)@ == (ClipView { active: true, ..old(self)@ }),
    {
        self.set_active(true)
    }

    /// Marks the clip as not in use.
    pub fn deactivate(&mut self)
        ensures
            final(self)@ == (ClipView { active: false, ..old(self)@ }),
    {
        self.set_active(false)
    }

    /// The visibility scope of this clip.
    pub fn get_clip_visibility_layer(&self) -> (scope: usize)
        ensures
            scope == self@.clip_visibility_layer,
    {
        self.clip_visibility_layer
    }
}

} // verus!
