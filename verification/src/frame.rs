//! What the compositing stages make of the frame buffers.
//!
//! A frame says what every frame buffer holds at one pixel, or that it
//! holds nothing yet. Rendering the layers walks them in compositing
//! order; each stage blends its source over its backdrop and stores the
//! result in the frame buffer of its layer, where the next stage finds it.

use vstd::prelude::*;
use crate::blend::{mode_of_code, BlendMode};
use crate::bundles::{BundleView, ClipLayerBundle};
use crate::clip_rendering::{
    compositing_order, composited_before, is_compositing_order, layer_indices, ClipLayerMaterial,
    MaterialView,
};
use crate::color::{composite_pixel, option_view, Color, ColorView};
use crate::image::ImageId;

verus! {

/// What a frame holds, buffer by buffer.
pub open spec fn frame_view(frame: Seq<Option<Color>>) -> Seq<Option<ColorView>> {
    frame.map_values(|c: Option<Color>| option_view(c))
}

/// What a stage reads from an input. An input that is not wired, a handle
/// that the frame does not know and a buffer that holds nothing yet all
/// read as nothing.
pub open spec fn sampled(frame: Seq<Option<ColorView>>, input: Option<ImageId>) -> Option<
    ColorView,
> {
    match input {
        Some(id) => if id.index < frame.len() {
            frame[id.index as int]
        } else {
            None
        },
        None => None,
    }
}

/// What a stage puts out. A stage whose mode is no mode passes its backdrop
/// through.
pub open spec fn stage_output(material: MaterialView, frame: Seq<Option<ColorView>>) -> Option<
    ColorView,
> {
    match mode_of_code(material.blend_mode) {
        Some(mode) => composite_pixel(
            mode,
            sampled(frame, material.previous_rt),
            sampled(frame, material.clip_rt),
            material.blend,
        ),
        None => sampled(frame, material.previous_rt),
    }
}

/// The frame after one layer was rendered: the frame buffer of the layer
/// holds what its stage put out. A layer whose frame buffer the frame does
/// not know changes nothing.
pub open spec fn rendered_layer(bundle: BundleView, frame: Seq<Option<ColorView>>) -> Seq<
    Option<ColorView>,
> {
    if bundle.render_target.index < frame.len() {
        frame.update(bundle.render_target.index as int, stage_output(bundle.material, frame))
    } else {
        frame
    }
}

/// What the layers of a stack hold, in the order in which they were added.
pub open spec fn bundle_views(layers: Seq<ClipLayerBundle>) -> Seq<BundleView> {
    layers.map_values(|bundle: ClipLayerBundle| bundle@)
}

/// The frame after the first `count` layers of `order` were rendered, one
/// after the other.
pub open spec fn rendered(
    layers: Seq<BundleView>,
    order: Seq<usize>,
    frame: Seq<Option<ColorView>>,
    count: nat,
) -> Seq<Option<ColorView>>
    decreases count,
{
    if count == 0 {
        frame
    } else {
        let before = rendered(layers, order, frame, (count - 1) as nat);
        let at = order[count - 1] as int;
        if 0 <= at < layers.len() {
            rendered_layer(layers[at], before)
        } else {
            before
        }
    }
}

/// What a frame holds in one buffer.
pub fn sample(frame: &Vec<Option<Color>>, input: Option<ImageId>) -> (found: Option<Color>)
    ensures
        option_view(found) == sampled(frame_view(frame@), input),
{
    match input {
        Some(id) => {
            if id.index < frame.len() {
                frame[id.index]
            } else {
                None
            }
        },
        None => None,
    }
}

/// What a stage puts out for the frame it is given.
pub fn render_stage(material: &ClipLayerMaterial, frame: &Vec<Option<Color>>) -> (out: Option<
    Color,
>)
    ensures
        option_view(out) == stage_output(material@, frame_view(frame@)),
{
    let backdrop: Option<Color> = sample(frame, material.previous_rt);
    match BlendMode::try_from(material.blend_mode) {
        Ok(mode) => {
            let source: Option<Color> = sample(frame, material.clip_rt);
            Color::composite(mode, backdrop, source, &material.blend)
        },
        Err(_) => backdrop,
    }
}

/// Renders every layer of the stack into the frame, in compositing order.
/// The frame buffers of the clips are read and stay as they are, unless a
/// layer composites into one of them.
pub fn render_layers(layers: &Vec<ClipLayerBundle>, frame: &mut Vec<Option<Color>>)
    ensures
        final(frame)@.len() == old(frame)@.len(),
        exists|order: Seq<usize>|
            #![trigger is_compositing_order(layer_indices(layers@), order)]
            is_compositing_order(layer_indices(layers@), order) && frame_view(final(frame)@)
                == rendered(bundle_views(layers@), order, frame_view(old(frame)@), layers@.len()),
{
    let order: Vec<usize> = compositing_order(layers);
    let n: usize = layers.len();
    let mut k: usize = 0;
    while k < n
        invariant
            k <= n,
            n == layers@.len(),
            frame@.len() == old(frame)@.len(),
            is_compositing_order(layer_indices(layers@), order@),
            frame_view(frame@) == rendered(
                bundle_views(layers@),
                order@,
                frame_view(old(frame)@),
                k as nat,
            ),
        decreases n - k,
    {
        let at: usize = order[k];
        let ghost before: Seq<Option<ColorView>> = frame_view(frame@);
        let out: Option<Color> = render_stage(&layers[at].material, frame);
        let target: usize = layers[at].clip_layer_render_target.render_target.index;
        assert(bundle_views(layers@)[at as int] == layers@[at as int]@);
        if target < frame.len() {
            frame[target] = out;
            assert(frame_view(frame@) =~= before.update(target as int, option_view(out)));
        }
        k = k + 1;
    }
}

/// A stack has one compositing order.
pub proof fn lemma_compositing_order_is_unique(indices: Seq<u8>, first: Seq<usize>, second: Seq<usize>)
    requires
        is_compositing_order(indices, first),
        is_compositing_order(indices, second),
    ensures
        first == second,
{
    lemma_orders_agree_up_to(indices, first, second, indices.len());
    assert(first =~= second);
}

proof fn lemma_orders_agree_up_to(indices: Seq<u8>, first: Seq<usize>, second: Seq<usize>, upto: nat)
    requires
        is_compositing_order(indices, first),
        is_compositing_order(indices, second),
        upto <= indices.len(),
    ensures
        forall|p: int| 0 <= p < upto ==> first[p] == second[p],
    decreases upto,
{
    if upto > 0 {
        lemma_orders_agree_up_to(indices, first, second, (upto - 1) as nat);
        let p: int = upto - 1;
        let x: usize = first[p];
        let y: usize = second[p];
        assert(second.contains(x as int as usize));
        assert(first.contains(y as int as usize));
        let q: int = choose|q: int| 0 <= q < second.len() && second[q] == x;
        let r: int = choose|r: int| 0 <= r < first.len() && first[r] == y;
        if x != y {
            if q < p {
                assert(first[q] == second[q]);
                assert(composited_before(indices, first[q] as int, first[p] as int));
            }
            if r < p {
                assert(first[r] == second[r]);
                assert(composited_before(indices, second[r] as int, second[p] as int));
            }
            assert(composited_before(indices, second[p] as int, second[q] as int));
            assert(composited_before(indices, first[p] as int, first[r] as int));
        }
    }
}

} // verus!
