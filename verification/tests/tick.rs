use pyree::address::LayerField;
use pyree::blend::BlendMode;
use pyree::control::dispatch_message;
use pyree::entity::EntityId;
use pyree::image::ImageId;
use pyree::message::{ControlArg, ControlMessage, Receipt};
use pyree::plugin::PyreeClipPlugin;
use pyree::visibility::{ClipEntity, SceneNode, VisibleEntities};
use pyree::weight::UNIT;

fn message(addr: &str, arg: ControlArg) -> ControlMessage {
    ControlMessage { addr: addr.to_string(), args: vec![arg] }
}

fn e(index: usize) -> EntityId {
    EntityId { index }
}

fn node(parent: Option<usize>, clip_scope: Option<usize>, is_camera: bool) -> SceneNode {
    SceneNode {
        parent: parent.map(e),
        clip_scope,
        is_camera,
        clip_entity: None,
        added: true,
        selected: false,
    }
}

#[test]
fn empty_compositor_ticks() {
    let mut compositor = PyreeClipPlugin::new();
    let snapshot = compositor.tick();
    assert!(snapshot.stages.is_empty());
    assert!(snapshot.cameras.is_empty());
    assert_eq!(snapshot.last_render_target.render_target, None);
}

#[test]
fn tick_runs_the_stages_in_order() {
    let mut compositor = PyreeClipPlugin::new();
    assert_eq!(compositor.add_layer(1), 0);
    assert_eq!(compositor.add_layer(0), 1);
    assert!(compositor.layers_changed);
    compositor.layers[0].clip_layer.add_clip(3, e(0), ImageId { index: 40 }).unwrap();
    compositor.scene.nodes = vec![
        node(None, Some(0), false),
        node(None, Some(1), false),
        node(Some(0), None, true),
        node(Some(0), None, false),
        node(Some(1), None, false),
    ];
    compositor.cameras =
        vec![VisibleEntities { camera: e(2), entities: vec![e(4), e(3), e(2), e(1)] }];
    compositor.queue.push(message("/clip_layer/1/active_clip", ControlArg::Int(3)));
    compositor.queue.push(message("/clip_layer/1/blend", ControlArg::Float(0.75f32.to_bits())));
    compositor.queue.push(message("/clip_layer/0/blend_mode", ControlArg::Str("add".to_string())));
    compositor.queue.push(message("/clip_layer/0/blend_mode", ControlArg::Int(99)));

    let snapshot = compositor.tick();

    assert_eq!(compositor.queue.len(), 0);
    assert!(!compositor.layers_changed);
    let upper = &compositor.layers[0];
    let lower = &compositor.layers[1];
    assert_eq!(upper.clip_layer.get_active_clip(), 3);
    assert_eq!(upper.clip_layer.blend().raw(), 49152);
    assert_eq!(lower.clip_layer.blend_mode(), BlendMode::Add);
    assert_eq!(lower.material.previous_rt, None);
    assert_eq!(upper.material.previous_rt, Some(lower.clip_layer_render_target.render_target));
    assert_eq!(
        compositor.last_render_target.render_target,
        Some(upper.clip_layer_render_target.render_target)
    );
    assert_eq!(upper.material.clip_rt, Some(ImageId { index: 40 }));
    assert_eq!(upper.material.blend.raw(), 49152);
    assert_eq!(lower.material.blend_mode, 4);
    assert_eq!(compositor.scene.nodes[2].clip_entity, Some(ClipEntity { clip: e(0), scope: 0 }));
    assert_eq!(compositor.scene.nodes[4].clip_entity, Some(ClipEntity { clip: e(1), scope: 1 }));
    assert_eq!(compositor.cameras[0].entities, vec![e(3), e(2)]);

    assert_eq!(snapshot.last_render_target, compositor.last_render_target);
    assert_eq!(snapshot.stages.len(), 2);
    assert_eq!(snapshot.stages[0].render_target, upper.clip_layer_render_target.render_target);
    assert_eq!(snapshot.stages[0].material.previous_rt, upper.material.previous_rt);
    assert_eq!(snapshot.stages[0].material.clip_rt, upper.material.clip_rt);
    assert_eq!(snapshot.stages[1].material.blend_mode, 4);
    assert_eq!(snapshot.cameras.len(), 1);
    assert_eq!(snapshot.cameras[0].camera, e(2));
    assert_eq!(snapshot.cameras[0].entities, vec![e(3), e(2)]);
}

#[test]
fn snapshot_does_not_follow_later_changes() {
    let mut compositor = PyreeClipPlugin::new();
    compositor.add_layer(0);
    let before = compositor.tick();
    compositor.queue.push(message("/clip_layer/0/blend", ControlArg::Float(1.0f32.to_bits())));
    let receipts = dispatch_message(
        &mut compositor.layers,
        &message("/clip_layer/0/blend_mode", ControlArg::Int(2)),
    );
    assert_eq!(receipts, vec![Some(Receipt::Applied(LayerField::BlendMode))]);
    assert_eq!(before.stages[0].material.blend.raw(), UNIT / 2);
    assert_eq!(before.stages[0].material.blend_mode, 0);
    assert_eq!(compositor.layers[0].material.blend_mode, 0);
    let after = compositor.tick();
    assert_eq!(after.stages[0].material.blend.raw(), UNIT);
    assert_eq!(after.stages[0].material.blend_mode, 2);
    assert_eq!(after.last_render_target, before.last_render_target);
}

#[test]
fn chain_closes_over_a_layer_that_was_taken_away() {
    let mut compositor = PyreeClipPlugin::new();
    compositor.add_layer(0);
    compositor.add_layer(1);
    compositor.add_layer(2);
    compositor.tick();
    let targets: Vec<ImageId> =
        compositor.layers.iter().map(|b| b.clip_layer_render_target.render_target).collect();
    assert_eq!(compositor.layers[2].material.previous_rt, Some(targets[1]));
    assert!(compositor.remove_layer(3).is_none());
    assert!(!compositor.layers_changed);
    let removed = compositor.remove_layer(1).unwrap();
    assert_eq!(removed.clip_layer.layer(), 1);
    assert!(compositor.layers_changed);
    assert_eq!(compositor.images.len(), 3);
    let snapshot = compositor.tick();
    assert_eq!(compositor.layers.len(), 2);
    assert_eq!(compositor.layers[1].clip_layer.layer(), 2);
    assert_eq!(compositor.layers[1].material.previous_rt, Some(targets[0]));
    assert_eq!(snapshot.last_render_target.render_target, Some(targets[2]));
    compositor.remove_layer(0);
    compositor.remove_layer(0);
    assert_eq!(compositor.tick().last_render_target.render_target, None);
}
