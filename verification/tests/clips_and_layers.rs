use pyree::blend::BlendMode;
use pyree::bundles::{ClipLayerBundle, LAYER_HEIGHT, LAYER_WIDTH};
use pyree::clip::{Clip, ClipVisibilityLayerAllocator};
use pyree::clip_layer::{ClipLayer, ClipSlot, SLOT_COUNT};
use pyree::clip_rendering::ClipLayerRenderTarget;
use pyree::entity::EntityId;
use pyree::error::ClipError;
use pyree::image::{
    render_target_descriptor, Extent, ImageId, Images, TextureFormat, TextureUsages,
};
use pyree::output_target::OutputTarget;
use pyree::render::{setup_clip_renderer, ClipRender, FsQuad};
use pyree::weight::UNIT;

#[test]
fn render_target_has_the_fixed_format() {
    let made = render_target_descriptor(Extent { width: 640, height: 480 }).unwrap();
    assert_eq!(made.size, Extent { width: 640, height: 480 });
    assert_eq!(made.format, TextureFormat::Bgra8UnormSrgb);
    assert_eq!(
        made.usage,
        TextureUsages { sampled: true, render_target: true, copy_destination: true }
    );
    assert_eq!(made.mip_level_count, 1);
    assert_eq!(made.sample_count, 1);
}

#[test]
fn empty_sizes_are_refused() {
    for size in [
        Extent { width: 0, height: 10 },
        Extent { width: 10, height: 0 },
        Extent { width: 0, height: 0 },
    ] {
        assert_eq!(render_target_descriptor(size), Err(ClipError::InvalidDimension));
        let mut images = Images::new();
        let mut scopes = ClipVisibilityLayerAllocator::new();
        let refused = Clip::new("nothing".to_string(), &mut images, size, &mut scopes);
        assert_eq!(refused.err(), Some(ClipError::InvalidDimension));
        assert_eq!(ClipLayerRenderTarget::new(&mut images, size), Err(ClipError::InvalidDimension));
        assert_eq!(OutputTarget::new(size, &mut images), Err(ClipError::InvalidDimension));
        assert_eq!(images.len(), 0);
        assert_eq!(scopes.get(), 0);
    }
}

#[test]
fn clips_get_buffers_and_scopes_of_their_own() {
    let mut images = Images::new();
    let mut scopes = ClipVisibilityLayerAllocator::new();
    let size = Extent { width: 1920, height: 1080 };
    let first = Clip::new("first".to_string(), &mut images, size, &mut scopes).unwrap();
    let second = Clip::new("second".to_string(), &mut images, size, &mut scopes).unwrap();
    assert!(scopes.has_room());
    let third = Clip::from_image("third".to_string(), ImageId { index: 0 }, &mut scopes);
    assert_eq!(first.get_display_name(), "first");
    assert_eq!(second.get_display_name(), "second");
    assert_eq!(first.render_target, ImageId { index: 0 });
    assert_eq!(second.render_target, ImageId { index: 1 });
    assert_eq!(third.render_target, ImageId { index: 0 });
    assert_eq!(third.target(), ImageId { index: 0 });
    assert_eq!(first.get_clip_visibility_layer(), 0);
    assert_eq!(second.get_clip_visibility_layer(), 1);
    assert_eq!(third.get_clip_visibility_layer(), 2);
    assert_eq!(images.len(), 2);
    assert_eq!(images.get(ImageId { index: 1 }).unwrap().size, size);
    assert_eq!(images.get(ImageId { index: 2 }), None);
    let target = ClipLayerRenderTarget::new(&mut images, size).unwrap();
    assert_eq!(target.render_target, ImageId { index: 2 });
    let output = OutputTarget::new(size, &mut images).unwrap();
    assert_eq!(output.render_target, ImageId { index: 3 });
}

#[test]
fn activation_touches_the_flag_alone() {
    let mut images = Images::new();
    let mut scopes = ClipVisibilityLayerAllocator::new();
    let mut clip =
        Clip::new("c".to_string(), &mut images, Extent { width: 1, height: 1 }, &mut scopes)
            .unwrap();
    assert!(clip.is_active());
    clip.deactivate();
    assert!(!clip.is_active());
    clip.activate();
    assert!(clip.is_active());
    clip.set_active(false);
    assert!(!clip.is_active());
    assert_eq!(clip.get_display_name(), "c");
    assert_eq!(clip.render_target, ImageId { index: 0 });
    assert_eq!(clip.get_clip_visibility_layer(), 0);
    assert_eq!(images.len(), 1);
}

#[test]
fn fresh_layer() {
    let layer = ClipLayer::new(9);
    assert_eq!(layer.layer(), 9);
    assert_eq!(layer.get_active_clip(), 0);
    assert_eq!(layer.blend().raw(), UNIT / 2);
    assert_eq!(layer.blend_mode(), BlendMode::Normal);
    assert_eq!(layer.version(), 0);
    assert_eq!(layer.get_active_render_target(), None);
    assert_eq!(layer.get_clips(), vec![None; 256]);
    assert_eq!(layer.get_render_targets(), vec![None; 256]);
}

#[test]
fn slots_are_filled_and_emptied() {
    let mut layer = ClipLayer::new(0);
    let clip = EntityId { index: 11 };
    let other = EntityId { index: 12 };
    assert_eq!(layer.add_clip(0, clip, ImageId { index: 3 }), Ok(()));
    assert_eq!(layer.add_clip(255, other, ImageId { index: 4 }), Ok(()));
    assert_eq!(
        layer.get_slot(0),
        Some(ClipSlot { clip, render_target: ImageId { index: 3 } })
    );
    assert_eq!(layer.get_slot(1), None);
    assert_eq!(layer.get_active_render_target(), Some(ImageId { index: 3 }));
    layer.set_active_clip(255);
    assert_eq!(layer.get_active_clip(), 255);
    assert_eq!(layer.get_active_render_target(), Some(ImageId { index: 4 }));
    layer.set_active_clip(17);
    assert_eq!(layer.get_active_render_target(), None);
    let clips = layer.get_clips();
    let targets = layer.get_render_targets();
    assert_eq!(clips.len(), SLOT_COUNT as usize);
    assert_eq!(clips[0], Some(clip));
    assert_eq!(clips[255], Some(other));
    assert_eq!(clips.iter().filter(|c| c.is_some()).count(), 2);
    assert_eq!(targets[0], Some(ImageId { index: 3 }));
    assert_eq!(targets[255], Some(ImageId { index: 4 }));
    assert_eq!(layer.add_clip(0, other, ImageId { index: 5 }), Ok(()));
    assert_eq!(layer.get_slot(0).unwrap().clip, other);
    assert_eq!(layer.remove_clip(0), Ok(()));
    assert_eq!(layer.get_slot(0), None);
    assert_eq!(layer.remove_clip(0), Ok(()));
    assert_eq!(layer.version(), 7);
}

#[test]
fn slots_beyond_the_last_are_refused() {
    let mut layer = ClipLayer::new(0);
    for index in [256u32, 257, 1000, u32::MAX] {
        assert_eq!(
            layer.add_clip(index, EntityId { index: 1 }, ImageId { index: 1 }),
            Err(ClipError::SlotOutOfRange)
        );
        assert_eq!(layer.remove_clip(index), Err(ClipError::SlotOutOfRange));
    }
    assert_eq!(layer.version(), 0);
    assert_eq!(layer.get_clips(), vec![None; 256]);
}

#[test]
fn bundle_of_a_layer() {
    let mut images = Images::new();
    let bundle = ClipLayerBundle::new(3, &mut images);
    assert_eq!(bundle.clip_layer.layer(), 3);
    assert_eq!(bundle.clip_layer_render_target.render_target, ImageId { index: 0 });
    assert_eq!(
        images.get(ImageId { index: 0 }).unwrap().size,
        Extent { width: LAYER_WIDTH, height: LAYER_HEIGHT }
    );
    assert_eq!(bundle.material.previous_rt, None);
    assert_eq!(bundle.material.clip_rt, None);
    assert_eq!(bundle.material.synced, None);
    assert_eq!(bundle.camera_priority(), 103);
    assert_eq!(ClipLayerBundle::new(255, &mut images).camera_priority(), 355);
}

#[test]
fn quad_covers_the_screen() {
    let quad = FsQuad::default();
    let corners = quad.vertices();
    let triangles = quad.indices();
    assert_eq!(triangles, vec![0, 1, 2, 0, 2, 3]);
    let positions: Vec<(i8, i8)> = corners.iter().map(|c| (c.x, c.y)).collect();
    assert_eq!(positions, vec![(1, -1), (1, 1), (-1, 1), (-1, -1)]);
    let uvs: Vec<(i8, i8)> = corners.iter().map(|c| (c.u, c.v)).collect();
    assert_eq!(uvs, vec![(1, 1), (1, -1), (-1, -1), (-1, 1)]);
}

#[test]
fn renderer_for_the_first_new_clip() {
    assert_eq!(setup_clip_renderer(None), None);
    let mut scopes = ClipVisibilityLayerAllocator::new();
    let clips = vec![
        Clip::from_image("a".to_string(), ImageId { index: 5 }, &mut scopes),
        Clip::from_image("b".to_string(), ImageId { index: 6 }, &mut scopes),
    ];
    assert_eq!(
        setup_clip_renderer(clips.first()),
        Some(ClipRender { image: ImageId { index: 5 } })
    );
    assert_eq!(
        setup_clip_renderer(clips.last()),
        Some(ClipRender { image: ImageId { index: 6 } })
    );
}
