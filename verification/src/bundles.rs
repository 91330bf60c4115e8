//! A layer together with what it needs to be rendered.

use vstd::prelude::*;
use crate::blend::BlendMode;
use crate::clip_layer::{ClipLayer, ClipSlot, LayerView};
use crate::clip_rendering::{ClipLayerMaterial, ClipLayerRenderTarget, MaterialView};
use crate::image::{render_target_of, Extent, ImageDescriptor, ImageId, Images};
use crate::weight::UNIT;

verus! {

/// The width of the frame buffer of a layer.
pub const LAYER_WIDTH: u32 = 1920;

/// The height of the frame buffer of a layer.
pub const LAYER_HEIGHT: u32 = 1080;

/// The render order of the first layer's camera. Every layer's camera comes
/// after those of the clips and before the one that shows the result.
pub const LAYER_CAMERA_BASE: isize = 100;

/// A layer, the frame buffer it composites into, and the inputs of its
/// compositing stage.
#[derive(Debug)]
pub struct ClipLayerBundle {
    pub clip_layer: ClipLayer,
    pub clip_layer_render_target: ClipLayerRenderTarget,
    pub material: ClipLayerMaterial,
}

/// What a bundle holds.
pub ghost struct BundleView {
    pub layer: LayerView,
    pub render_target: ImageId,
    pub material: MaterialView,
}

impl View for ClipLayerBundle {
    type V = BundleView;

    open spec fn view(&self) -> BundleView {
        BundleView {
            layer: self.clip_layer@,
            render_target: self.clip_layer_render_target.render_target,
            material: self.material@,
        }
    }
}

/// A layer that was just made, with the given index and frame buffer:
/// nothing in its slots, the first slot selected, weight one half, mode
/// `Normal`, and a stage that has seen nothing of it yet.
pub open spec fn fresh_bundle(layer: u8, render_target: ImageId) -> BundleView {
    BundleView {
        layer: LayerView {
            layer,
            slots: Map::<u8, ClipSlot>::empty(),
            active_clip: 0,
            blend: UNIT as int / 2,
            blend_mode: BlendMode::Normal,
            version: 0,
        },
        render_target,
        material: MaterialView {
            blend: UNIT as int / 2,
            blend_mode: 0,
            previous_rt: None,
            clip_rt: None,
            synced: None,
        },
    }
}

/// The descriptor of the frame buffer of a layer.
pub open spec fn layer_target() -> ImageDescriptor {
    render_target_of(Extent { width: LAYER_WIDTH, height: LAYER_HEIGHT })
}

impl ClipLayerBundle {
    /// A fresh layer with a frame buffer of its own, which is made here.
    pub fn new(layer: u8, images: &mut Images) -> (bundle: ClipLayerBundle)
        ensures
            final(images)@ == old(images)@.push(layer_target()),
            bundle@ == fresh_bundle(layer, bundle@.render_target),
            bundle@.render_target.index == old(images)@.len(),
    {
        let id: ImageId = images.add_render_target(LAYER_WIDTH, LAYER_HEIGHT);
        ClipLayerBundle {
            clip_layer: ClipLayer::new(layer),
            clip_layer_render_target: ClipLayerRenderTarget { render_target: id },
            material: ClipLayerMaterial::new(),
        }
    }

    /// The render order of this layer's camera: layers render in ascending
    /// order of their index.
    pub fn camera_priority(&self) -> (priority: isize)
        ensures
            priority == LAYER_CAMERA_BASE + self@.layer.layer,
    {
        LAYER_CAMERA_BASE + self.clip_layer.layer() as isize
    }
}

/// Adds a layer to the stack and says where it stands there.
pub fn spawn_clip_layer_bundle(layers: &mut Vec<ClipLayerBundle>, clip_layer_bundle: ClipLayerBundle) -> (at:
    usize)
    ensures
        at == old(layers)@.len(),
        final(layers)@ == old(layers)@.push(clip_layer_bundle),
{
    let at: usize = layers.len();
    layers.push(clip_layer_bundle);
    at
}

} // verus!
