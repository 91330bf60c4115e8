//! The compositing stages of the layers and the chain that links them.
//!
//! Every layer composites into a frame buffer of its own. Its stage reads
//! two inputs: the active source of the layer, and the backdrop, which is
//! the frame buffer of the layer directly below. The frame buffer of the
//! topmost layer holds the final composite.

use vstd::prelude::*;
use vstd::seq_lib::{to_multiset_contains, to_multiset_len};
use crate::blend::BlendMode;
use crate::bundles::ClipLayerBundle;
use crate::clip_layer::{active_source, LayerView};
use crate::error::ClipError;
use crate::image::{render_target_descriptor, render_target_of, Extent, ImageId, Images};
use crate::weight::{Weight, UNIT};

verus! {

/// The frame buffer a layer composites into.
#[derive(Clone, Copy, Debug, PartialEq, Eq, Structural)]
pub struct ClipLayerRenderTarget {
    pub render_target: ImageId,
}

/// The frame buffer of the topmost layer, which holds the final composite;
/// `None` while there is no layer.
#[derive(Clone, Copy, Debug, PartialEq, Eq, Structural)]
pub struct ClipLayerLastRenderTarget {
    pub render_target: Option<ImageId>,
}

impl ClipLayerRenderTarget {
    /// Makes the frame buffer of a layer. A size without pixels is refused,
    /// and then nothing is made.
    pub fn new(images: &mut Images, size: Extent) -> (made: Result<ClipLayerRenderTarget, ClipError>)
        ensures
            size.width == 0 || size.height == 0 ==> {
                &&& made == Err::<ClipLayerRenderTarget, ClipError>(ClipError::InvalidDimension)
                &&& final(images)@ == old(images)@
            },
            size.width != 0 && size.height != 0 ==> {
                &&& made.is_ok()
                &&& made.unwrap().render_target.index == old(images)@.len()
                &&& final(images)@ == old(images)@.push(render_target_of(size))
            },
    {
        match render_target_descriptor(size) {
            Err(e) => Err(e),
            Ok(descriptor) => Ok(ClipLayerRenderTarget { render_target: images.add(descriptor) }),
        }
    }
}

/// The inputs of the compositing stage of one layer: a copy of what the
/// layer says, and the wiring of the chain.
#[derive(Clone, Copy, Debug)]
pub struct ClipLayerMaterial {
    /// The blend weight.
    pub blend: Weight,
    /// The integer encoding of the blend mode.
    pub blend_mode: i32,
    /// The frame buffer of the layer directly below, if there is one.
    pub previous_rt: Option<ImageId>,
    /// The frame buffer of the active clip, if there is one.
    pub clip_rt: Option<ImageId>,
    /// The version of the layer that the copy was taken from; `None` before
    /// the first copy.
    pub synced: Option<u64>,
}

/// What the inputs of a compositing stage hold.
pub ghost struct MaterialView {
    pub blend: int,
    pub blend_mode: int,
    pub previous_rt: Option<ImageId>,
    pub clip_rt: Option<ImageId>,
    pub synced: Option<u64>,
}

impl View for ClipLayerMaterial {
    type V = MaterialView;

    open spec fn view(&self) -> MaterialView {
        MaterialView {
            blend: self.blend.value(),
            blend_mode: self.blend_mode as int,
            previous_rt: self.previous_rt,
            clip_rt: self.clip_rt,
            synced: self.synced,
        }
    }
}

/// Whether a layer changed since its stage last looked.
pub open spec fn is_dirty(material: MaterialView, layer: LayerView) -> bool {
    material.synced != Some(layer.version)
}

/// The inputs of a stage after the state of its layer was copied into them.
/// The backdrop is not the layer's to say and stays.
pub open spec fn synced_with(material: MaterialView, layer: LayerView) -> MaterialView {
    MaterialView {
        blend: layer.blend,
        blend_mode: layer.blend_mode.spec_code(),
        previous_rt: material.previous_rt,
        clip_rt: active_source(layer),
        synced: Some(layer.version),
    }
}

impl ClipLayerMaterial {
    /// The inputs of a stage that has seen nothing yet: weight one half,
    /// mode `Normal`, no backdrop and no source.
    pub fn new() -> (material: ClipLayerMaterial)
        ensures
            material@ == (MaterialView {
                blend: UNIT as int / 2,
                blend_mode: 0,
                previous_rt: None,
                clip_rt: None,
                synced: None,
            }),
    {
        ClipLayerMaterial {
            blend: Weight::half(),
            blend_mode: 0,
            previous_rt: None,
            clip_rt: None,
            synced: None,
        }
    }

    /// Sets the mode, in its integer encoding.
    pub fn set_blend_mode(&mut self, blend_mode: &BlendMode)
        ensures
            final(self)@ == (MaterialView { blend_mode: blend_mode.spec_code(), ..old(self)@ }),
    {
        self.blend_mode = blend_mode.code();
    }
}

/// Copies weight, mode and active source of every layer that changed since
/// its stage last looked into the inputs of that stage. The other stages,
/// every backdrop and the layers themselves stay as they are.
pub fn update_clip_layer_blend(layers: &mut Vec<ClipLayerBundle>)
    ensures
        final(layers)@.len() == old(layers)@.len(),
        forall|i: int|
            0 <= i < old(layers)@.len() ==> {
                &&& (#[trigger] final(layers)@[i])@.layer == old(layers)@[i]@.layer
                &&& final(layers)@[i]@.render_target == old(layers)@[i]@.render_target
                &&& final(layers)@[i]@.material == if is_dirty(
                    old(layers)@[i]@.material,
                    old(layers)@[i]@.layer,
                ) {
                    synced_with(old(layers)@[i]@.material, old(layers)@[i]@.layer)
                } else {
                    old(layers)@[i]@.material
                }
            },
{
    let n: usize = layers.len();
    let mut i: usize = 0;
    while i < n
        invariant
            i <= n,
            layers@.len() == n,
            n == old(layers)@.len(),
            forall|k: int| i <= k < n ==> layers@[k] == old(layers)@[k],
            forall|k: int|
                0 <= k < i ==> {
                    &&& (#[trigger] layers@[k])@.layer == old(layers)@[k]@.layer
                    &&& layers@[k]@.render_target == old(layers)@[k]@.render_target
                    &&& layers@[k]@.material == if is_dirty(
                        old(layers)@[k]@.material,
                        old(layers)@[k]@.layer,
                    ) {
                        synced_with(old(layers)@[k]@.material, old(layers)@[k]@.layer)
                    } else {
                        old(layers)@[k]@.material
                    }
                },
        decreases n - i,
    {
        let version: u64 = layers[i].clip_layer.version();
        let stale: bool = match layers[i].material.synced {
            Some(seen) => seen != version,
            None => true,
        };
        if stale {
            let mode: BlendMode = layers[i].clip_layer.blend_mode();
            let weight: Weight = layers[i].clip_layer.blend();
            let source: Option<ImageId> = layers[i].clip_layer.get_active_render_target();
            layers[i].material.set_blend_mode(&mode);
            layers[i].material.blend = weight;
            layers[i].material.clip_rt = source;
            layers[i].material.synced = Some(version);
        }
        i = i + 1;
    }
}

/// Whether the layer at `a` is composited before the layer at `b`: layers
/// go in ascending order of their index, and two of the same index in the
/// order in which they were added.
pub open spec fn composited_before(indices: Seq<u8>, a: int, b: int) -> bool {
    indices[a] < indices[b] || (indices[a] == indices[b] && a < b)
}

/// Whether the layer at `below` comes directly before the layer at `above`
/// in the compositing order, with no layer between the two.
pub open spec fn directly_below(indices: Seq<u8>, below: int, above: int) -> bool {
    &&& 0 <= below < indices.len()
    &&& 0 <= above < indices.len()
    &&& composited_before(indices, below, above)
    &&& forall|m: int|
        0 <= m < indices.len() ==> !(#[trigger] composited_before(indices, below, m)
            && composited_before(indices, m, above))
}

/// Whether no layer is composited before the layer at `i`.
pub open spec fn is_lowest(indices: Seq<u8>, i: int) -> bool {
    forall|m: int| 0 <= m < indices.len() ==> !#[trigger] composited_before(indices, m, i)
}

/// Whether no layer is composited after the layer at `i`.
pub open spec fn is_topmost(indices: Seq<u8>, i: int) -> bool {
    &&& 0 <= i < indices.len()
    &&& forall|m: int| 0 <= m < indices.len() ==> !#[trigger] composited_before(indices, i, m)
}

/// Whether `backdrop` is the right backdrop for the layer at `i`: nothing
/// for the lowest layer, and for every other the frame buffer of the layer
/// directly below.
pub open spec fn is_backdrop_of(
    indices: Seq<u8>,
    targets: Seq<ImageId>,
    i: int,
    backdrop: Option<ImageId>,
) -> bool {
    match backdrop {
        None => is_lowest(indices, i),
        Some(target) => exists|below: int|
            #[trigger] directly_below(indices, below, i) && target == targets[below],
    }
}

/// Whether `tail` is the end of the chain: nothing where there is no layer,
/// else the frame buffer of the topmost layer.
pub open spec fn is_chain_tail(indices: Seq<u8>, targets: Seq<ImageId>, tail: Option<ImageId>) -> bool {
    match tail {
        None => indices.len() == 0,
        Some(target) => exists|top: int| #[trigger] is_topmost(indices, top) && target == targets[top],
    }
}

/// The layer indices of a stack, in the order in which the layers were added.
pub open spec fn layer_indices(layers: Seq<ClipLayerBundle>) -> Seq<u8> {
    Seq::new(layers.len(), |i: int| layers[i]@.layer.layer)
}

/// The frame buffers of a stack, in the order in which the layers were added.
pub open spec fn layer_targets(layers: Seq<ClipLayerBundle>) -> Seq<ImageId> {
    Seq::new(layers.len(), |i: int| layers[i]@.render_target)
}

/// The sort key of the layer at `i`: its index, then its position.
pub open spec fn layer_key(indices: Seq<u8>, i: int) -> (u8, usize) {
    (indices[i], i as usize)
}

/// The order of two sort keys: by layer index, then by position.
pub open spec fn key_le(a: (u8, usize), b: (u8, usize)) -> bool {
    a.0 < b.0 || (a.0 == b.0 && a.1 <= b.1)
}

/// Whether `order` lists the positions of all layers in compositing order.
pub open spec fn is_compositing_order(indices: Seq<u8>, order: Seq<usize>) -> bool {
    &&& order.len() == indices.len()
    &&& forall|p: int| 0 <= p < order.len() ==> #[trigger] order[p] < indices.len()
    &&& forall|p: int, q: int|
        0 <= p < q < order.len() ==> composited_before(
            indices,
            #[trigger] order[p] as int,
            #[trigger] order[q] as int,
        )
    &&& forall|i: int| 0 <= i < indices.len() ==> #[trigger] order.contains(i as usize)
}

/// Calls `sort` of std on the keys. The contract claims what std documents
/// of it: the keys are the same as before, each as often as before, and
/// they stand in ascending order, a pair being ordered by its first part
/// and then by its second.
#[verifier::external_body]
fn sort_keys(keys: &mut Vec<(u8, usize)>)
    ensures
        final(keys)@.to_multiset() == old(keys)@.to_multiset(),
        forall|i: int, j: int|
            0 <= i <= j < final(keys)@.len() ==> key_le(
                #[trigger] final(keys)@[i],
                #[trigger] final(keys)@[j],
            ),
{
    keys.sort();
}

/// The positions of all layers in the order in which they are composited:
/// sorted by layer index, and by position where two share an index.
pub fn compositing_order(layers: &Vec<ClipLayerBundle>) -> (order: Vec<usize>)
    ensures
        is_compositing_order(layer_indices(layers@), order@),
{
    let n: usize = layers.len();
    let ghost indices: Seq<u8> = layer_indices(layers@);
    let mut keys: Vec<(u8, usize)> = Vec::new();
    let mut i: usize = 0;
    while i < n
        invariant
            i <= n,
            n == layers@.len(),
            indices == layer_indices(layers@),
            keys@.len() == i,
            forall|k: int| 0 <= k < i ==> #[trigger] keys@[k] == layer_key(indices, k),
        decreases n - i,
    {
        keys.push((layers[i].clip_layer.layer(), i));
        i = i + 1;
    }
    let ghost unsorted: Seq<(u8, usize)> = keys@;
    sort_keys(&mut keys);
    proof {
        lemma_sorted_keys(indices, unsorted, keys@);
    }
    let mut order: Vec<usize> = Vec::new();
    let mut k: usize = 0;
    while k < n
        invariant
            k <= n,
            keys@.len() == n,
            order@.len() == k,
            forall|p: int| 0 <= p < k ==> #[trigger] order@[p] == keys@[p].1,
        decreases n - k,
    {
        order.push(keys[k].1);
        k = k + 1;
    }
    proof {
        assert forall|i: int| 0 <= i < indices.len() implies #[trigger] order@.contains(
            i as usize,
        ) by {
            assert(keys@.contains(layer_key(indices, i)));
            let at: int = choose|at: int| 0 <= at < keys@.len() && keys@[at] == layer_key(indices, i);
            assert(order@[at] == i as usize);
        }
        assert forall|p: int, q: int| 0 <= p < q < order@.len() implies composited_before(
            indices,
            #[trigger] order@[p] as int,
            #[trigger] order@[q] as int,
        ) by {
            assert(composited_before(indices, keys@[p].1 as int, keys@[q].1 as int));
        }
    }
    order
}

/// Rebuilds the chain if the set of layers changed: every stage gets as its
/// backdrop the frame buffer of the layer directly below it in ascending
/// order of the layer indices, the lowest gets none, and the frame buffer
/// of the topmost layer is handed back as the end of the chain. Nothing
/// else changes. If the set of layers is as it was, nothing changes at all
/// and the end of the chain is the one handed in.
pub fn update_render_target_chain(
    layers: &mut Vec<ClipLayerBundle>,
    layers_changed: bool,
    last_rt: ClipLayerLastRenderTarget,
) -> (tail: ClipLayerLastRenderTarget)
    ensures
        final(layers)@.len() == old(layers)@.len(),
        !layers_changed ==> final(layers)@ == old(layers)@ && tail == last_rt,
        layers_changed ==> is_chain_tail(
            layer_indices(old(layers)@),
            layer_targets(old(layers)@),
            tail.render_target,
        ),
        layers_changed ==> chain_is_wired(final(layers)@),
        layers_changed ==> forall|i: int|
            0 <= i < old(layers)@.len() ==> {
                &&& (#[trigger] final(layers)@[i])@.layer == old(layers)@[i]@.layer
                &&& final(layers)@[i]@.render_target == old(layers)@[i]@.render_target
                &&& final(layers)@[i]@.material == (MaterialView {
                    previous_rt: final(layers)@[i]@.material.previous_rt,
                    ..old(layers)@[i]@.material
                })
                &&& is_backdrop_of(
                    layer_indices(old(layers)@),
                    layer_targets(old(layers)@),
                    i,
                    final(layers)@[i]@.material.previous_rt,
                )
            },
{
    if !layers_changed {
        return last_rt;
    }
    let n: usize = layers.len();
    let ghost indices: Seq<u8> = layer_indices(layers@);
    let ghost targets: Seq<ImageId> = layer_targets(layers@);
    let order: Vec<usize> = compositing_order(layers);
    let ghost place: Seq<int> = Seq::new(
        n as nat,
        |i: int| choose|k: int| 0 <= k < n && order@[k] == i as usize,
    );
    proof {
        assert forall|i: int| 0 <= i < n implies 0 <= #[trigger] place[i] < n && order@[place[i]]
            == i by {
            assert(order@.contains(i as usize));
        }
    }
    let mut prev: Option<ImageId> = None;
    let mut k: usize = 0;
    while k < n
        invariant
            k <= n,
            n == layers@.len(),
            n == old(layers)@.len(),
            indices == layer_indices(old(layers)@),
            targets == layer_targets(old(layers)@),
            is_compositing_order(indices, order@),
            place.len() == n,
            forall|i: int| 0 <= i < n ==> 0 <= #[trigger] place[i] < n && order@[place[i]] == i,
            k == 0 ==> prev.is_none(),
            k > 0 ==> prev == Some(targets[order@[k - 1] as int]),
            forall|i: int|
                0 <= i < n ==> {
                    &&& (#[trigger] layers@[i])@.layer == old(layers)@[i]@.layer
                    &&& layers@[i]@.render_target == old(layers)@[i]@.render_target
                    &&& layers@[i]@.material == (MaterialView {
                        previous_rt: layers@[i]@.material.previous_rt,
                        ..old(layers)@[i]@.material
                    })
                    &&& place[i] < k ==> is_backdrop_of(
                        indices,
                        targets,
                        i,
                        layers@[i]@.material.previous_rt,
                    )
                },
        decreases n - k,
    {
        let at: usize = order[k];
        proof {
            lemma_backdrop_at(indices, targets, order@, place, k as int, prev);
            assert forall|i: int| 0 <= i < n && place[i] == k implies i == at by {
                assert(order@[place[i]] == i);
            }
        }
        layers[at].material.previous_rt = prev;
        prev = Some(layers[at].clip_layer_render_target.render_target);
        k = k + 1;
    }
    proof {
        if n > 0 {
            lemma_last_is_topmost(indices, order@, place);
        }
        assert(layer_indices(layers@) =~= indices);
        assert(layer_targets(layers@) =~= targets);
    }
    ClipLayerLastRenderTarget { render_target: prev }
}

/// What sorting the keys of a stack gives: every key is the key of the
/// layer it names, every layer has its key somewhere, and the layers stand
/// in compositing order.
proof fn lemma_sorted_keys(indices: Seq<u8>, unsorted: Seq<(u8, usize)>, sorted: Seq<(u8, usize)>)
    requires
        indices.len() <= usize::MAX,
        unsorted.len() == indices.len(),
        forall|k: int| 0 <= k < unsorted.len() ==> #[trigger] unsorted[k] == layer_key(indices, k),
        sorted.to_multiset() == unsorted.to_multiset(),
        forall|i: int, j: int|
            0 <= i <= j < sorted.len() ==> key_le(#[trigger] sorted[i], #[trigger] sorted[j]),
    ensures
        sorted.len() == indices.len(),
        forall|p: int|
            0 <= p < sorted.len() ==> (#[trigger] sorted[p]).1 < indices.len() && sorted[p].0
                == indices[sorted[p].1 as int],
        forall|i: int| 0 <= i < indices.len() ==> sorted.contains(#[trigger] layer_key(indices, i)),
        forall|p: int, q: int|
            0 <= p < q < sorted.len() ==> composited_before(
                indices,
                (#[trigger] sorted[p]).1 as int,
                (#[trigger] sorted[q]).1 as int,
            ),
{
    assert(sorted.len() == unsorted.len()) by {
        to_multiset_len(unsorted);
        to_multiset_len(sorted);
    }
    assert forall|p: int| 0 <= p < sorted.len() implies (#[trigger] sorted[p]).1 < indices.len()
        && sorted[p].0 == indices[sorted[p].1 as int] by {
        assert(sorted.contains(sorted[p]));
        to_multiset_contains(sorted, sorted[p]);
        to_multiset_contains(unsorted, sorted[p]);
        assert(unsorted.contains(sorted[p]));
        let k: int = choose|k: int| 0 <= k < unsorted.len() && unsorted[k] == sorted[p];
        assert(unsorted[k] == layer_key(indices, k));
    }
    assert forall|i: int| 0 <= i < indices.len() implies sorted.contains(
        #[trigger] layer_key(indices, i),
    ) by {
        assert(unsorted[i] == layer_key(indices, i));
        assert(unsorted.contains(unsorted[i]));
        to_multiset_contains(unsorted, unsorted[i]);
        to_multiset_contains(sorted, unsorted[i]);
        assert(sorted.contains(unsorted[i]));
    }
    assert(unsorted.no_duplicates()) by {
        assert forall|a: int, b: int|
            0 <= a < unsorted.len() && 0 <= b < unsorted.len() && a != b implies unsorted[a]
            != unsorted[b] by {
            assert(unsorted[a] == layer_key(indices, a));
            assert(unsorted[b] == layer_key(indices, b));
        }
    }
    unsorted.lemma_multiset_has_no_duplicates();
    sorted.lemma_multiset_has_no_duplicates_conv();
    assert forall|p: int, q: int| 0 <= p < q < sorted.len() implies composited_before(
        indices,
        (#[trigger] sorted[p]).1 as int,
        (#[trigger] sorted[q]).1 as int,
    ) by {
        assert(key_le(sorted[p], sorted[q]));
        assert(sorted[p] != sorted[q]);
        assert(sorted[p].0 == indices[sorted[p].1 as int]);
        assert(sorted[q].0 == indices[sorted[q].1 as int]);
    }
}

/// The backdrop that the wiring gives to the layer at the `k`-th place of
/// the compositing order is the right one.
proof fn lemma_backdrop_at(
    indices: Seq<u8>,
    targets: Seq<ImageId>,
    order: Seq<usize>,
    place: Seq<int>,
    k: int,
    prev: Option<ImageId>,
)
    requires
        0 <= k < indices.len(),
        targets.len() == indices.len(),
        is_compositing_order(indices, order),
        place.len() == indices.len(),
        forall|i: int|
            0 <= i < indices.len() ==> 0 <= #[trigger] place[i] < order.len() && order[place[i]]
                == i,
        k == 0 ==> prev.is_none(),
        k > 0 ==> prev == Some(targets[order[k - 1] as int]),
    ensures
        is_backdrop_of(indices, targets, order[k] as int, prev),
{
    let at: int = order[k] as int;
    if k == 0 {
        assert forall|m: int| 0 <= m < indices.len() implies !#[trigger] composited_before(
            indices,
            m,
            at,
        ) by {
            let p: int = place[m];
            assert(order[p] == m);
            if p > 0 {
                assert(composited_before(indices, order[0] as int, order[p] as int));
            }
        }
    } else {
        let below: int = order[k - 1] as int;
        assert(composited_before(indices, order[k - 1] as int, order[k] as int));
        assert forall|m: int| 0 <= m < indices.len() implies !(#[trigger] composited_before(
            indices,
            below,
            m,
        ) && composited_before(indices, m, at)) by {
            let p: int = place[m];
            assert(order[p] == m);
            if p < k - 1 {
                assert(composited_before(indices, order[p] as int, order[k - 1] as int));
            } else if p > k {
                assert(composited_before(indices, order[k] as int, order[p] as int));
            }
        }
        assert(directly_below(indices, below, at));
    }
}

/// The layer at the last place of the compositing order is the topmost.
proof fn lemma_last_is_topmost(indices: Seq<u8>, order: Seq<usize>, place: Seq<int>)
    requires
        indices.len() > 0,
        is_compositing_order(indices, order),
        place.len() == indices.len(),
        forall|i: int|
            0 <= i < indices.len() ==> 0 <= #[trigger] place[i] < order.len() && order[place[i]]
                == i,
    ensures
        is_topmost(indices, order[order.len() - 1] as int),
{
    let last: int = order.len() - 1;
    let top: int = order[last] as int;
    assert forall|m: int| 0 <= m < indices.len() implies !#[trigger] composited_before(
        indices,
        top,
        m,
    ) by {
        let p: int = place[m];
        assert(order[p] == m);
        if p < last {
            assert(composited_before(indices, order[p] as int, order[last] as int));
        }
    }
}

/// Whether every stage of a stack has the right backdrop.
pub open spec fn chain_is_wired(layers: Seq<ClipLayerBundle>) -> bool {
    forall|i: int|
        0 <= i < layers.len() ==> is_backdrop_of(
            layer_indices(layers),
            layer_targets(layers),
            i,
            (#[trigger] layers[i])@.material.previous_rt,
        )
}

/// Says whether every stage of the stack has the right backdrop. After a
/// rebuild of the chain this holds; where it does not, the chain was
/// tampered with or a rebuild was left out.
pub fn check_render_target_chain(layers: &Vec<ClipLayerBundle>) -> (wired: bool)
    ensures
        wired == chain_is_wired(layers@),
{
    let n: usize = layers.len();
    let ghost indices: Seq<u8> = layer_indices(layers@);
    let ghost targets: Seq<ImageId> = layer_targets(layers@);
    let order: Vec<usize> = compositing_order(layers);
    let ghost place: Seq<int> = Seq::new(
        n as nat,
        |i: int| choose|k: int| 0 <= k < n && order@[k] == i as usize,
    );
    proof {
        assert forall|i: int| 0 <= i < n implies 0 <= #[trigger] place[i] < n && order@[place[i]]
            == i by {
            assert(order@.contains(i as usize));
        }
    }
    let mut prev: Option<ImageId> = None;
    let mut k: usize = 0;
    while k < n
        invariant
            k <= n,
            n == layers@.len(),
            indices == layer_indices(layers@),
            targets == layer_targets(layers@),
            is_compositing_order(indices, order@),
            place.len() == n,
            forall|i: int| 0 <= i < n ==> 0 <= #[trigger] place[i] < n && order@[place[i]] == i,
            k == 0 ==> prev.is_none(),
            k > 0 ==> prev == Some(targets[order@[k - 1] as int]),
            forall|i: int|
                0 <= i < n && #[trigger] place[i] < k ==> is_backdrop_of(
                    indices,
                    targets,
                    i,
                    layers@[i]@.material.previous_rt,
                ),
        decreases n - k,
    {
        let at: usize = order[k];
        proof {
            lemma_backdrop_at(indices, targets, order@, place, k as int, prev);
            assert forall|i: int| 0 <= i < n && place[i] == k implies i == at by {
                assert(order@[place[i]] == i);
            }
        }
        let wired: bool = match (layers[at].material.previous_rt, prev) {
            (Some(actual), Some(expected)) => actual.index == expected.index,
            (None, None) => true,
            _ => false,
        };
        if !wired {
            proof {
                if is_backdrop_of(indices, targets, at as int, layers@[at as int]@.material.previous_rt) {
                    lemma_wiring_is_unique(
                        indices,
                        targets,
                        at as int,
                        layers@[at as int]@.material.previous_rt,
                        prev,
                    );
                }
            }
            return false;
        }
        prev = Some(layers[at].clip_layer_render_target.render_target);
        k = k + 1;
    }
    proof {
        assert forall|i: int| 0 <= i < n implies is_backdrop_of(
            indices,
            targets,
            i,
            (#[trigger] layers@[i])@.material.previous_rt,
        ) by {
            assert(place[i] < n);
        }
    }
    true
}

/// Where no two layers share an index, the compositing order is the
/// ascending order of the indices alone: the order in which the layers were
/// added has no part in it.
pub proof fn lemma_order_ignores_insertion(indices: Seq<u8>, a: int, b: int)
    requires
        0 <= a < indices.len(),
        0 <= b < indices.len(),
        forall|i: int, j: int|
            0 <= i < indices.len() && 0 <= j < indices.len() && i != j ==> indices[i] != indices[j],
    ensures
        composited_before(indices, a, b) <==> indices[a] < indices[b],
{
}

/// A layer has one right backdrop and a stack has one end: whatever meets
/// the description of the wiring is what the rebuild gives.
pub proof fn lemma_wiring_is_unique(
    indices: Seq<u8>,
    targets: Seq<ImageId>,
    i: int,
    first: Option<ImageId>,
    second: Option<ImageId>,
)
    requires
        0 <= i < indices.len(),
        targets.len() == indices.len(),
        is_backdrop_of(indices, targets, i, first),
        is_backdrop_of(indices, targets, i, second),
    ensures
        first == second,
{
    match (first, second) {
        (Some(x), Some(y)) => {
            let bx: int = choose|below: int|
                #[trigger] directly_below(indices, below, i) && x == targets[below];
            let by_: int = choose|below: int|
                #[trigger] directly_below(indices, below, i) && y == targets[below];
            assert(composited_before(indices, bx, i));
            assert(composited_before(indices, by_, i));
            if bx != by_ {
                assert(composited_before(indices, bx, by_) || composited_before(indices, by_, bx));
            }
        },
        (Some(x), None) => {
            let bx: int = choose|below: int|
                #[trigger] directly_below(indices, below, i) && x == targets[below];
            assert(composited_before(indices, bx, i));
        },
        (None, Some(y)) => {
            let by_: int = choose|below: int|
                #[trigger] directly_below(indices, below, i) && y == targets[below];
            assert(composited_before(indices, by_, i));
        },
        (None, None) => {},
    }
}

} // verus!
