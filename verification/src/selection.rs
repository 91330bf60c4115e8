//! Which entities belong to a clip that is selected.
//!
//! The clip in the selected slot of a layer is marked as selected, and with
//! it everything that hangs under it; the other clips of the layer lose the
//! mark, and with them everything that hangs under them.

use vstd::prelude::*;
use crate::bundles::{BundleView, ClipLayerBundle};
use crate::clip_layer::{slot_at, ClipLayer, LayerView};
use crate::clip_rendering::is_dirty;
use crate::entity::EntityId;
use crate::frame::bundle_views;
use crate::visibility::{parent_of, Scene, SceneNode};

verus! {

/// Whether `ancestor` is among the first `steps` ancestors of `entity`.
pub open spec fn is_ancestor_within(
    nodes: Seq<SceneNode>,
    ancestor: EntityId,
    entity: EntityId,
    steps: nat,
) -> bool
    decreases steps,
{
    steps > 0 && match parent_of(nodes, entity) {
        None => false,
        Some(parent) => parent == ancestor || is_ancestor_within(
            nodes,
            ancestor,
            parent,
            (steps - 1) as nat,
        ),
    }
}

/// Whether `entity` is `root` or hangs under it. As in the search for the
/// clip of an entity, the walk up the parents is bounded by the size of the
/// scene.
pub open spec fn in_subtree(nodes: Seq<SceneNode>, root: EntityId, entity: EntityId) -> bool {
    entity == root || is_ancestor_within(nodes, root, entity, nodes.len())
}

/// Whether an entity is a clip that carries the mark.
pub open spec fn is_selected_clip(nodes: Seq<SceneNode>, entity: EntityId) -> bool {
    entity.index < nodes.len() && nodes[entity.index as int].clip_scope.is_some()
        && nodes[entity.index as int].selected
}

/// The clip in the selected slot of a layer, if there is one.
pub open spec fn active_clip_entity(layer: LayerView) -> Option<EntityId> {
    match slot_at(layer.slots, layer.active_clip as int) {
        Some(slot) => Some(slot.clip),
        None => None,
    }
}

/// Whether the clip in slot `slot` of the layer is to lose the mark: it
/// carries the mark and is not the clip in the selected slot.
pub open spec fn slot_loses_mark(nodes: Seq<SceneNode>, layer: LayerView, slot: int) -> bool {
    match slot_at(layer.slots, slot) {
        Some(held) => is_selected_clip(nodes, held.clip) && Some(held.clip) != active_clip_entity(
            layer,
        ),
        None => false,
    }
}

/// Whether an entity loses the mark through one of the first `upto` slots
/// of the layer: it is, or hangs under, a clip there that loses the mark.
pub open spec fn loses_mark(nodes: Seq<SceneNode>, layer: LayerView, entity: EntityId, upto: int) -> bool {
    exists|slot: int|
        0 <= slot < upto && #[trigger] slot_loses_mark(nodes, layer, slot) && in_subtree(
            nodes,
            slot_at(layer.slots, slot).unwrap().clip,
            entity,
        )
}

/// Whether an entity gains the mark through the layer: it is, or hangs
/// under, the clip in the selected slot, and that clip does not carry the
/// mark yet.
pub open spec fn gains_mark(nodes: Seq<SceneNode>, layer: LayerView, entity: EntityId) -> bool {
    match active_clip_entity(layer) {
        Some(active) => !is_selected_clip(nodes, active) && in_subtree(nodes, active, entity),
        None => false,
    }
}

/// The mark of an entity after one layer was looked at. Who carries the
/// mark is judged by the scene as it was; `mark` is what the entity has by
/// now.
pub open spec fn mark_after(nodes: Seq<SceneNode>, layer: LayerView, entity: EntityId, mark: bool) -> bool {
    if gains_mark(nodes, layer, entity) {
        true
    } else if loses_mark(nodes, layer, entity, 256) {
        false
    } else {
        mark
    }
}

/// The marks of all entities after the first `count` layers were looked
/// at. Only a layer that changed since its stage last looked is looked at.
pub open spec fn marks_after(nodes: Seq<SceneNode>, layers: Seq<BundleView>, count: nat) -> Seq<
    bool,
>
    decreases count,
{
    if count == 0 {
        Seq::new(nodes.len(), |x: int| nodes[x].selected)
    } else {
        let before = marks_after(nodes, layers, (count - 1) as nat);
        let bundle = layers[count - 1];
        if is_dirty(bundle.material, bundle.layer) {
            Seq::new(
                nodes.len(),
                |x: int| mark_after(nodes, bundle.layer, EntityId { index: x as usize }, before[x]),
            )
        } else {
            before
        }
    }
}

/// Whether `entity` is `root` or hangs under it.
pub fn is_in_subtree(scene: &Scene, root: EntityId, entity: EntityId) -> (inside: bool)
    ensures
        inside == in_subtree(scene.nodes@, root, entity),
{
    if entity.index == root.index {
        return true;
    }
    let n: usize = scene.nodes.len();
    let mut current: EntityId = entity;
    let mut steps: usize = 0;
    while steps < n
        invariant
            steps <= n,
            n == scene.nodes@.len(),
            entity != root,
            is_ancestor_within(scene.nodes@, root, entity, n as nat) == is_ancestor_within(
                scene.nodes@,
                root,
                current,
                (n - steps) as nat,
            ),
        decreases n - steps,
    {
        if current.index >= n {
            return false;
        }
        match scene.nodes[current.index].parent {
            None => {
                return false;
            },
            Some(parent) => {
                if parent.index == root.index {
                    return true;
                }
                current = parent;
                steps = steps + 1;
            },
        }
    }
    false
}

fn mark_subtree(scene: &Scene, root: EntityId, value: bool, marks: &mut Vec<bool>)
    requires
        old(marks)@.len() == scene.nodes@.len(),
    ensures
        final(marks)@.len() == old(marks)@.len(),
        forall|x: int|
            0 <= x < old(marks)@.len() ==> #[trigger] final(marks)@[x] == if in_subtree(
                scene.nodes@,
                root,
                EntityId { index: x as usize },
            ) {
                value
            } else {
                old(marks)@[x]
            },
{
    let n: usize = marks.len();
    let mut x: usize = 0;
    while x < n
        invariant
            x <= n,
            n == marks@.len(),
            n == old(marks)@.len(),
            n == scene.nodes@.len(),
            forall|k: int| x <= k < n ==> marks@[k] == old(marks)@[k],
            forall|k: int|
                0 <= k < x ==> #[trigger] marks@[k] == if in_subtree(
                    scene.nodes@,
                    root,
                    EntityId { index: k as usize },
                ) {
                    value
                } else {
                    old(marks)@[k]
                },
        decreases n - x,
    {
        if is_in_subtree(scene, root, EntityId { index: x }) {
            marks[x] = value;
        }
        x = x + 1;
    }
}

fn carries_mark(scene: &Scene, entity: EntityId) -> (carries: bool)
    ensures
        carries == is_selected_clip(scene.nodes@, entity),
{
    entity.index < scene.nodes.len() && scene.nodes[entity.index].clip_scope.is_some()
        && scene.nodes[entity.index].selected
}

fn active_entity(layer: &ClipLayer) -> (active: Option<EntityId>)
    ensures
        active == active_clip_entity(layer@),
{
    match layer.get_slot(layer.get_active_clip()) {
        Some(slot) => Some(slot.clip),
        None => None,
    }
}

fn same_entity(a: Option<EntityId>, b: EntityId) -> (same: bool)
    ensures
        same == (a == Some(b)),
{
    match a {
        Some(entity) => entity.index == b.index,
        None => false,
    }
}

fn mark_layer(scene: &Scene, layer: &ClipLayer, marks: &mut Vec<bool>)
    requires
        old(marks)@.len() == scene.nodes@.len(),
    ensures
        final(marks)@.len() == old(marks)@.len(),
        forall|x: int|
            0 <= x < old(marks)@.len() ==> #[trigger] final(marks)@[x] == mark_after(
                scene.nodes@,
                layer@,
                EntityId { index: x as usize },
                old(marks)@[x],
            ),
{
    let active: Option<EntityId> = active_entity(layer);
    let n: usize = marks.len();
    let mut slot: u32 = 0;
    while slot < 256
        invariant
            slot <= 256,
            n == marks@.len(),
            n == old(marks)@.len(),
            n == scene.nodes@.len(),
            active == active_clip_entity(layer@),
            forall|x: int|
                0 <= x < n ==> #[trigger] marks@[x] == if loses_mark(
                    scene.nodes@,
                    layer@,
                    EntityId { index: x as usize },
                    slot as int,
                ) {
                    false
                } else {
                    old(marks)@[x]
                },
        decreases 256 - slot,
    {
        let ghost before: Seq<bool> = marks@;
        let mut marked: bool = false;
        let mut root: EntityId = EntityId { index: 0 };
        match layer.get_slot(slot as u8) {
            Some(held) => {
                if carries_mark(scene, held.clip) && !same_entity(active, held.clip) {
                    root = held.clip;
                    marked = true;
                    mark_subtree(scene, held.clip, false, marks);
                }
            },
            None => {},
        }
        proof {
            assert(marked == slot_loses_mark(scene.nodes@, layer@, slot as int));
            assert forall|x: int| 0 <= x < n implies #[trigger] marks@[x] == if loses_mark(
                scene.nodes@,
                layer@,
                EntityId { index: x as usize },
                slot as int + 1,
            ) {
                false
            } else {
                old(marks)@[x]
            } by {
                let entity: EntityId = EntityId { index: x as usize };
                let through: bool = marked && in_subtree(scene.nodes@, root, entity);
                if through {
                    assert(slot_loses_mark(scene.nodes@, layer@, slot as int));
                }
                if loses_mark(scene.nodes@, layer@, entity, slot as int + 1) && !loses_mark(
                    scene.nodes@,
                    layer@,
                    entity,
                    slot as int,
                ) {
                    let s: int = choose|s: int|
                        0 <= s < slot as int + 1 && #[trigger] slot_loses_mark(
                            scene.nodes@,
                            layer@,
                            s,
                        ) && in_subtree(
                            scene.nodes@,
                            slot_at(layer@.slots, s).unwrap().clip,
                            entity,
                        );
                    assert(s == slot as int);
                }
                if loses_mark(scene.nodes@, layer@, entity, slot as int) {
                    let s: int = choose|s: int|
                        0 <= s < slot as int && #[trigger] slot_loses_mark(scene.nodes@, layer@, s)
                            && in_subtree(
                            scene.nodes@,
                            slot_at(layer@.slots, s).unwrap().clip,
                            entity,
                        );
                    assert(slot_loses_mark(scene.nodes@, layer@, s));
                }
            }
        }
        slot = slot + 1;
    }
    match active {
        Some(clip) => {
            if !carries_mark(scene, clip) {
                mark_subtree(scene, clip, true, marks);
            }
        },
        None => {},
    }
}

/// Brings the marks in line with the layers that changed since their
/// stages last looked: in each of them, taken in the order in which the
/// layers were added, the clips that carry the mark and are not selected
/// lose it, with all that hangs under them, and the selected clip gains it,
/// with all that hangs under it, unless it carries it already. Which clips
/// carry the mark is judged by the scene as it was when the call began.
/// Nothing but the marks changes.
pub fn update_clip_selected_system(scene: &mut Scene, layers: &Vec<ClipLayerBundle>)
    ensures
        final(scene).nodes@.len() == old(scene).nodes@.len(),
        forall|x: int|
            0 <= x < old(scene).nodes@.len() ==> #[trigger] final(scene).nodes@[x] == (SceneNode {
                selected: marks_after(
                    old(scene).nodes@,
                    bundle_views(layers@),
                    layers@.len(),
                )[x],
                ..old(scene).nodes@[x]
            }),
{
    let n: usize = scene.nodes.len();
    let mut marks: Vec<bool> = Vec::new();
    let mut x: usize = 0;
    while x < n
        invariant
            x <= n,
            n == scene.nodes@.len(),
            scene.nodes@ == old(scene).nodes@,
            marks@.len() == x,
            forall|k: int| 0 <= k < x ==> #[trigger] marks@[k] == scene.nodes@[k].selected,
        decreases n - x,
    {
        marks.push(scene.nodes[x].selected);
        x = x + 1;
    }
    assert(marks@ =~= marks_after(scene.nodes@, bundle_views(layers@), 0));
    let count: usize = layers.len();
    let mut i: usize = 0;
    while i < count
        invariant
            i <= count,
            count == layers@.len(),
            n == scene.nodes@.len(),
            scene.nodes@ == old(scene).nodes@,
            marks@.len() == n,
            marks@ == marks_after(scene.nodes@, bundle_views(layers@), i as nat),
        decreases count - i,
    {
        let version: u64 = layers[i].clip_layer.version();
        let stale: bool = match layers[i].material.synced {
            Some(seen) => seen != version,
            None => true,
        };
        assert(bundle_views(layers@)[i as int] == layers@[i as int]@);
        if stale {
            mark_layer(scene, &layers[i].clip_layer, &mut marks);
        }
        assert(marks@ =~= marks_after(scene.nodes@, bundle_views(layers@), (i + 1) as nat));
        i = i + 1;
    }
    let mut x: usize = 0;
    while x < n
        invariant
            x <= n,
            n == scene.nodes@.len(),
            n == old(scene).nodes@.len(),
            marks@.len() == n,
            forall|k: int| x <= k < n ==> scene.nodes@[k] == old(scene).nodes@[k],
            forall|k: int|
                0 <= k < x ==> #[trigger] scene.nodes@[k] == (SceneNode {
                    selected: marks@[k],
                    ..old(scene).nodes@[k]
                }),
        decreases n - x,
    {
        scene.nodes[x].selected = marks[x];
        x = x + 1;
    }
}

} // verus!
