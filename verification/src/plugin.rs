//! One tick of the compositor.
//!
//! Everything that changes the compositing state happens in the tick, in a
//! fixed order, and the render phase reads only what the tick hands out at
//! its end. So the render phase never sees a state that is half changed.

use vstd::prelude::*;
use crate::bundles::{fresh_bundle, layer_target, spawn_clip_layer_bundle, ClipLayerBundle};
use crate::clip_layer::LayerView;
use crate::clip_rendering::{
    is_backdrop_of, is_chain_tail, is_dirty, layer_indices, layer_targets, synced_with,
    update_clip_layer_blend, update_render_target_chain, ClipLayerLastRenderTarget,
    ClipLayerMaterial, MaterialView,
};
use crate::control::{
    apply_control_messages, dispatched_all, lemma_dispatch_keeps_index, ControlQueue,
};
use crate::entity::EntityId;
use crate::image::{ImageDescriptor, ImageId, Images};
use crate::message::MessageView;
use crate::visibility::{
    add_clip_camera_component_system, clip_visibility_system, narrowed, tagged_node, Scene,
    SceneNode, VisibleEntities,
};

verus! {

/// The compositing state: the layers, the scene they render, and what
/// waits to be applied to them.
#[derive(Debug)]
pub struct PyreeClipPlugin {
    /// The frame buffers that were made.
    pub images: Images,
    /// The layers, in the order in which they were added.
    pub layers: Vec<ClipLayerBundle>,
    /// The control messages that arrived since the last tick.
    pub queue: ControlQueue,
    /// The entities of the scene.
    pub scene: Scene,
    /// What every camera could see, as worked out before the tick.
    pub cameras: Vec<VisibleEntities>,
    /// The end of the chain.
    pub last_render_target: ClipLayerLastRenderTarget,
    /// Whether a layer was added or taken away since the last tick.
    pub layers_changed: bool,
}

/// The inputs of one compositing stage, as the render phase gets them.
#[derive(Clone, Copy, Debug)]
pub struct ExtractedStage {
    /// The frame buffer the stage renders into.
    pub render_target: ImageId,
    /// The inputs of the stage.
    pub material: ClipLayerMaterial,
}

/// What the render phase gets to see of one tick.
#[derive(Debug)]
pub struct Snapshot {
    /// The stages of the layers, in the order in which the layers were added.
    pub stages: Vec<ExtractedStage>,
    /// The frame buffer that holds the final composite.
    pub last_render_target: ClipLayerLastRenderTarget,
    /// What every camera is to draw.
    pub cameras: Vec<VisibleEntities>,
}

/// The inputs of a stage at the end of a tick, given its backdrop then: the
/// state of the layer is copied in if the layer changed since the stage
/// last looked.
pub open spec fn stage_after_tick(
    material: MaterialView,
    layer: LayerView,
    backdrop: Option<ImageId>,
) -> MaterialView {
    let wired = MaterialView { previous_rt: backdrop, ..material };
    if is_dirty(material, layer) {
        synced_with(wired, layer)
    } else {
        wired
    }
}

impl PyreeClipPlugin {
    /// A compositor without layers, in an empty scene.
    pub fn new() -> (made: PyreeClipPlugin)
        ensures
            made.images@ == Seq::<ImageDescriptor>::empty(),
            made.layers@ == Seq::<ClipLayerBundle>::empty(),
            made.queue@ == Seq::<MessageView>::empty(),
            made.scene.nodes@ == Seq::<SceneNode>::empty(),
            made.cameras@ == Seq::<VisibleEntities>::empty(),
            made.last_render_target.render_target.is_none(),
            !made.layers_changed,
    {
        PyreeClipPlugin {
            images: Images::new(),
            layers: Vec::new(),
            queue: ControlQueue::new(),
            scene: Scene { nodes: Vec::new() },
            cameras: Vec::new(),
            last_render_target: ClipLayerLastRenderTarget { render_target: None },
            layers_changed: false,
        }
    }

    /// Adds a fresh layer with the given index and says where it stands
    /// among the layers. The chain is rebuilt at the next tick.
    pub fn add_layer(&mut self, layer: u8) -> (at: usize)
        ensures
            at == old(self).layers@.len(),
            final(self).layers@.len() == old(self).layers@.len() + 1,
            forall|i: int|
                0 <= i < old(self).layers@.len() ==> final(self).layers@[i] == old(self).layers@[i],
            final(self).layers@[at as int]@ == fresh_bundle(
                layer,
                final(self).layers@[at as int]@.render_target,
            ),
            final(self).layers@[at as int]@.render_target.index == old(self).images@.len(),
            final(self).images@ == old(self).images@.push(layer_target()),
            final(self).layers_changed,
            final(self).queue@ == old(self).queue@,
            final(self).scene == old(self).scene,
            final(self).cameras == old(self).cameras,
            final(self).last_render_target == old(self).last_render_target,
    {
        let bundle: ClipLayerBundle = ClipLayerBundle::new(layer, &mut self.images);
        let at: usize = spawn_clip_layer_bundle(&mut self.layers, bundle);
        self.layers_changed = true;
        at
    }

    /// Takes the layer at the given place out of the stack and hands it
    /// back; `None` where there is no such place. The layers after it move
    /// up by one. The frame buffer of the layer stays where it is, so that
    /// no handle goes stale. The chain is rebuilt at the next tick.
    pub fn remove_layer(&mut self, at: usize) -> (removed: Option<ClipLayerBundle>)
        ensures
            at >= old(self).layers@.len() ==> removed.is_none() && *final(self) == *old(self),
            at < old(self).layers@.len() ==> {
                &&& removed == Some(old(self).layers@[at as int])
                &&& final(self).layers@ == old(self).layers@.remove(at as int)
                &&& final(self).layers_changed
                &&& final(self).images == old(self).images
                &&& final(self).queue == old(self).queue
                &&& final(self).scene == old(self).scene
                &&& final(self).cameras == old(self).cameras
                &&& final(self).last_render_target == old(self).last_render_target
            },
    {
        if at >= self.layers.len() {
            return None;
        }
        let removed: ClipLayerBundle = self.layers.remove(at);
        self.layers_changed = true;
        Some(removed)
    }

    /// Runs one tick. In this order: the control messages that wait are
    /// applied to the layers; the chain is rebuilt if a layer was added or
    /// taken away; the stages of the layers that changed take over their
    /// state; the new entities of the scene are tagged, and what every
    /// camera sees is narrowed down to its clip; and what the render phase
    /// needs is handed out.
    pub fn tick(&mut self) -> (snapshot: Snapshot)
        ensures
            final(self).images == old(self).images,
            final(self).queue@ == Seq::<MessageView>::empty(),
            !final(self).layers_changed,
            final(self).layers@.len() == old(self).layers@.len(),
            forall|i: int|
                0 <= i < old(self).layers@.len() ==> {
                    &&& (#[trigger] final(self).layers@[i])@.layer == dispatched_all(
                        old(self).layers@[i]@.layer,
                        old(self).queue@,
                    )
                    &&& final(self).layers@[i]@.render_target == old(self).layers@[i]@.render_target
                    &&& final(self).layers@[i]@.material == stage_after_tick(
                        old(self).layers@[i]@.material,
                        final(self).layers@[i]@.layer,
                        final(self).layers@[i]@.material.previous_rt,
                    )
                    &&& old(self).layers_changed ==> is_backdrop_of(
                        layer_indices(old(self).layers@),
                        layer_targets(old(self).layers@),
                        i,
                        final(self).layers@[i]@.material.previous_rt,
                    )
                    &&& !old(self).layers_changed ==> final(self).layers@[i]@.material.previous_rt
                        == old(self).layers@[i]@.material.previous_rt
                },
            old(self).layers_changed ==> is_chain_tail(
                layer_indices(old(self).layers@),
                layer_targets(old(self).layers@),
                final(self).last_render_target.render_target,
            ),
            !old(self).layers_changed ==> final(self).last_render_target == old(self).last_render_target,
            final(self).scene.nodes@.len() == old(self).scene.nodes@.len(),
            forall|x: int|
                0 <= x < old(self).scene.nodes@.len() ==> #[trigger] final(self).scene.nodes@[x]
                    == tagged_node(old(self).scene.nodes@, x),
            final(self).cameras@.len() == old(self).cameras@.len(),
            forall|c: int|
                0 <= c < old(self).cameras@.len() ==> {
                    &&& (#[trigger] final(self).cameras@[c]).camera == old(self).cameras@[c].camera
                    &&& final(self).cameras@[c].entities@ == narrowed(
                        final(self).scene.nodes@,
                        old(self).cameras@[c].camera,
                        old(self).cameras@[c].entities@,
                    )
                },
            snapshot.last_render_target == final(self).last_render_target,
            snapshot.stages@.len() == final(self).layers@.len(),
            forall|i: int|
                0 <= i < final(self).layers@.len() ==> {
                    &&& (#[trigger] snapshot.stages@[i]).render_target == final(self).layers@[i]@.render_target
                    &&& snapshot.stages@[i].material@ == final(self).layers@[i]@.material
                },
            snapshot.cameras@.len() == final(self).cameras@.len(),
            forall|c: int|
                0 <= c < final(self).cameras@.len() ==> {
                    &&& (#[trigger] snapshot.cameras@[c]).camera == final(self).cameras@[c].camera
                    &&& snapshot.cameras@[c].entities@ == final(self).cameras@[c].entities@
                },
    {
        let ghost indices: Seq<u8> = layer_indices(self.layers@);
        let ghost targets: Seq<ImageId> = layer_targets(self.layers@);
        apply_control_messages(&mut self.layers, &mut self.queue);
        proof {
            assert forall|i: int| 0 <= i < self.layers@.len() implies self.layers@[i]@.layer.layer
                == old(self).layers@[i]@.layer.layer by {
                lemma_dispatch_keeps_index(old(self).layers@[i]@.layer, old(self).queue@);
            }
            assert(layer_indices(self.layers@) =~= indices);
            assert(layer_targets(self.layers@) =~= targets);
        }
        let tail: ClipLayerLastRenderTarget = update_render_target_chain(
            &mut self.layers,
            self.layers_changed,
            self.last_render_target,
        );
        self.last_render_target = tail;
        self.layers_changed = false;
        update_clip_layer_blend(&mut self.layers);
        add_clip_camera_component_system(&mut self.scene);
        clip_visibility_system(&self.scene, &mut self.cameras);
        let stages: Vec<ExtractedStage> = extract_stages(&self.layers);
        let cameras: Vec<VisibleEntities> = extract_cameras(&self.cameras);
        Snapshot { stages, last_render_target: self.last_render_target, cameras }
    }
}

/// Copies the inputs of every stage for the render phase.
pub fn extract_stages(layers: &Vec<ClipLayerBundle>) -> (stages: Vec<ExtractedStage>)
    ensures
        stages@.len() == layers@.len(),
        forall|i: int|
            0 <= i < layers@.len() ==> {
                &&& (#[trigger] stages@[i]).render_target == layers@[i]@.render_target
                &&& stages@[i].material@ == layers@[i]@.material
            },
{
    let mut stages: Vec<ExtractedStage> = Vec::new();
    let n: usize = layers.len();
    let mut i: usize = 0;
    while i < n
        invariant
            i <= n,
            n == layers@.len(),
            stages@.len() == i,
            forall|k: int|
                0 <= k < i ==> {
                    &&& (#[trigger] stages@[k]).render_target == layers@[k]@.render_target
                    &&& stages@[k].material@ == layers@[k]@.material
                },
        decreases n - i,
    {
        stages.push(
            ExtractedStage {
                render_target: layers[i].clip_layer_render_target.render_target,
                material: layers[i].material,
            },
        );
        i = i + 1;
    }
    stages
}

/// Copies what every camera sees for the render phase.
pub fn extract_cameras(cameras: &Vec<VisibleEntities>) -> (copies: Vec<VisibleEntities>)
    ensures
        copies@.len() == cameras@.len(),
        forall|c: int|
            0 <= c < cameras@.len() ==> {
                &&& (#[trigger] copies@[c]).camera == cameras@[c].camera
                &&& copies@[c].entities@ == cameras@[c].entities@
            },
{
    let mut copies: Vec<VisibleEntities> = Vec::new();
    let n: usize = cameras.len();
    let mut c: usize = 0;
    while c < n
        invariant
            c <= n,
            n == cameras@.len(),
            copies@.len() == c,
            forall|k: int|
                0 <= k < c ==> {
                    &&& (#[trigger] copies@[k]).camera == cameras@[k].camera
                    &&& copies@[k].entities@ == cameras@[k].entities@
                },
        decreases n - c,
    {
        let mut entities: Vec<EntityId> = Vec::new();
        let m: usize = cameras[c].entities.len();
        let mut e: usize = 0;
        while e < m
            invariant
                e <= m,
                c < cameras@.len(),
                m == cameras@[c as int].entities@.len(),
                entities@ == cameras@[c as int].entities@.take(e as int),
            decreases m - e,
        {
            entities.push(cameras[c].entities[e]);
            assert(entities@ =~= cameras@[c as int].entities@.take(e as int + 1));
            e = e + 1;
        }
        assert(cameras@[c as int].entities@.take(m as int) =~= cameras@[c as int].entities@);
        copies.push(VisibleEntities { camera: cameras[c].camera, entities });
        c = c + 1;
    }
    copies
}

} // verus!
