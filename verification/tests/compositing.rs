use pyree::blend::BlendMode;
use pyree::bundles::{spawn_clip_layer_bundle, ClipLayerBundle};
use pyree::clip::{Clip, ClipVisibilityLayerAllocator};
use pyree::clip_rendering::{
    check_render_target_chain, compositing_order, update_clip_layer_blend,
    update_render_target_chain, ClipLayerLastRenderTarget, ClipLayerMaterial,
};
use pyree::color::Color;
use pyree::entity::EntityId;
use pyree::frame::{render_layers, render_stage, sample};
use pyree::image::{Extent, ImageId, Images};
use pyree::weight::{Weight, UNIT};

fn color(red: u32, green: u32, blue: u32) -> Color {
    Color::new(red, green, blue, UNIT).unwrap()
}

fn channels(c: Color) -> (u32, u32, u32, u32) {
    (c.red(), c.green(), c.blue(), c.alpha())
}

fn weight(value: f32) -> Weight {
    Weight::from_float_bits(value.to_bits()).unwrap()
}

#[test]
fn weights_from_float_bits() {
    assert_eq!(weight(0.0).raw(), 0);
    assert_eq!(weight(-0.0).raw(), 0);
    assert_eq!(weight(1.0).raw(), UNIT);
    assert_eq!(weight(0.5).raw(), 32768);
    assert_eq!(weight(0.25).raw(), 16384);
    assert_eq!(weight(0.75).raw(), 49152);
    assert_eq!(weight(0.1).raw(), 6553);
    assert_eq!(weight(0.999_999_94).raw(), 65535);
    assert_eq!(weight(1.0 / 65536.0).raw(), 1);
    assert_eq!(weight(1.0 / 131072.0).raw(), 0);
    assert_eq!(weight(f32::MIN_POSITIVE).raw(), 0);
    assert_eq!(weight(1.0e-40).raw(), 0);
}

#[test]
fn weights_agree_with_floats() {
    let mut value = 0.0f32;
    while value <= 1.0 {
        let expected = (value as f64 * 65536.0).floor() as u32;
        assert_eq!(weight(value).raw(), expected);
        value += 0.000_37;
    }
}

#[test]
fn weights_out_of_range_are_refused() {
    for value in [1.000_000_1f32, 2.0, -0.5, -1.0e-40, f32::INFINITY, f32::NEG_INFINITY, f32::NAN] {
        assert!(Weight::from_float_bits(value.to_bits()).is_none());
    }
    assert!(Weight::from_raw(UNIT).is_some());
    assert!(Weight::from_raw(UNIT + 1).is_none());
    assert_eq!(Weight::half().complement().raw(), UNIT / 2);
    assert_eq!(Weight::zero().complement().raw(), UNIT);
    assert!(Weight::one().same(&Weight::from_raw(UNIT).unwrap()));
    assert!(!Weight::one().same(&Weight::zero()));
}

#[test]
fn colors_keep_their_channels_in_range() {
    assert!(Color::new(UNIT + 1, 0, 0, 0).is_none());
    assert!(Color::new(0, UNIT + 1, 0, 0).is_none());
    assert!(Color::new(0, 0, UNIT + 1, 0).is_none());
    assert!(Color::new(0, 0, 0, UNIT + 1).is_none());
    assert_eq!(channels(Color::new(1, 2, 3, 4).unwrap()), (1, 2, 3, 4));
}

#[test]
fn every_formula() {
    let backdrop = Color::new(40000, 20000, 65536, 0).unwrap();
    let source = Color::new(30000, 50000, 10000, 65536).unwrap();
    let w = Weight::from_raw(16384).unwrap();
    let blend = |mode| channels(Color::blend(mode, &backdrop, &source, &w));
    assert_eq!(blend(BlendMode::Normal), (30000, 50000, 10000, 65536));
    assert_eq!(blend(BlendMode::Mix), (37500, 27500, 51652, 16384));
    assert_eq!(blend(BlendMode::Multiply), (18310, 15258, 10000, 0));
    assert_eq!(blend(BlendMode::Screen), (51690, 54742, 65536, 65536));
    assert_eq!(blend(BlendMode::Add), (47500, 32500, 65536, 16384));
    assert_eq!(blend(BlendMode::Subtract), (32500, 7500, 63036, 0));
    assert_eq!(blend(BlendMode::Difference), (20000, 45000, 0, 65536));
}

#[test]
fn mix_at_the_ends() {
    let samples = [0u32, 1, 255, 32768, 65535, 65536];
    for b in samples {
        for s in samples {
            let backdrop = Color::new(b, s, b, s).unwrap();
            let source = Color::new(s, b, b, s).unwrap();
            let at_zero = Color::blend(BlendMode::Mix, &backdrop, &source, &Weight::zero());
            let at_one = Color::blend(BlendMode::Mix, &backdrop, &source, &Weight::one());
            assert_eq!(channels(at_zero), channels(backdrop));
            assert_eq!(channels(at_one), channels(source));
        }
    }
}

#[test]
fn stage_without_source_passes_the_backdrop() {
    let red = color(UNIT, 0, 0);
    let green = color(0, UNIT, 0);
    let w = Weight::half();
    for mode in [BlendMode::Normal, BlendMode::Mix, BlendMode::Add, BlendMode::Difference] {
        let passed = Color::composite(mode, Some(red), None, &w).unwrap();
        assert_eq!(channels(passed), channels(red));
        let alone = Color::composite(mode, None, Some(green), &w).unwrap();
        assert_eq!(channels(alone), channels(green));
        assert!(Color::composite(mode, None, None, &w).is_none());
    }
    let mixed = Color::composite(BlendMode::Mix, Some(red), Some(green), &w).unwrap();
    assert_eq!(channels(mixed), (32768, 32768, 0, UNIT));
}

struct Stack {
    layers: Vec<ClipLayerBundle>,
    frame: Vec<Option<Color>>,
}

fn stack_of(indices: &[u8], colors: &[Color]) -> Stack {
    let mut images = Images::new();
    let mut scopes = ClipVisibilityLayerAllocator::new();
    let mut layers = Vec::new();
    let mut painted = Vec::new();
    for (position, index) in indices.iter().enumerate() {
        let mut bundle = ClipLayerBundle::new(*index, &mut images);
        let clip = Clip::new(
            format!("clip {}", index),
            &mut images,
            Extent { width: 4, height: 4 },
            &mut scopes,
        )
        .unwrap();
        bundle.clip_layer.add_clip(0, EntityId { index: position }, clip.render_target).unwrap();
        bundle.clip_layer.set_blend_mode(BlendMode::Mix);
        painted.push((clip.render_target, colors[*index as usize]));
        assert_eq!(spawn_clip_layer_bundle(&mut layers, bundle), position);
    }
    let mut frame = vec![None; images.len()];
    for (target, paint) in painted {
        frame[target.index] = Some(paint);
    }
    Stack { layers, frame }
}

fn output_of(stack: &Stack, layer: u8) -> (u32, u32, u32, u32) {
    let bundle = stack.layers.iter().find(|b| b.clip_layer.layer() == layer).unwrap();
    channels(stack.frame[bundle.clip_layer_render_target.render_target.index].unwrap())
}

#[test]
fn three_layers_of_red_green_blue() {
    let paints = [color(UNIT, 0, 0), color(0, UNIT, 0), color(0, 0, UNIT)];
    for order in [[0u8, 1, 2], [2, 0, 1], [1, 2, 0], [2, 1, 0]] {
        let mut stack = stack_of(&order, &paints);
        let tail = update_render_target_chain(
            &mut stack.layers,
            true,
            ClipLayerLastRenderTarget { render_target: None },
        );
        update_clip_layer_blend(&mut stack.layers);
        render_layers(&stack.layers, &mut stack.frame);
        assert_eq!(output_of(&stack, 0), (65536, 0, 0, 65536));
        assert_eq!(output_of(&stack, 1), (32768, 32768, 0, 65536));
        assert_eq!(output_of(&stack, 2), (16384, 16384, 32768, 65536));
        let top = stack.layers.iter().find(|b| b.clip_layer.layer() == 2).unwrap();
        assert_eq!(tail.render_target, Some(top.clip_layer_render_target.render_target));
        let shown = sample(&stack.frame, tail.render_target).unwrap();
        assert_eq!(channels(shown), (16384, 16384, 32768, 65536));
    }
}

#[test]
fn chain_follows_the_layer_indices() {
    let paints = vec![color(0, 0, 0); 256];
    let order = [7u8, 3, 200, 0, 12, 5];
    let mut stack = stack_of(&order, &paints);
    let tail = update_render_target_chain(
        &mut stack.layers,
        true,
        ClipLayerLastRenderTarget { render_target: None },
    );
    let target_of = |layer: u8| {
        stack
            .layers
            .iter()
            .find(|b| b.clip_layer.layer() == layer)
            .unwrap()
            .clip_layer_render_target
            .render_target
    };
    let backdrop_of = |layer: u8| {
        stack.layers.iter().find(|b| b.clip_layer.layer() == layer).unwrap().material.previous_rt
    };
    assert_eq!(backdrop_of(0), None);
    assert_eq!(backdrop_of(3), Some(target_of(0)));
    assert_eq!(backdrop_of(5), Some(target_of(3)));
    assert_eq!(backdrop_of(7), Some(target_of(5)));
    assert_eq!(backdrop_of(12), Some(target_of(7)));
    assert_eq!(backdrop_of(200), Some(target_of(12)));
    assert_eq!(tail.render_target, Some(target_of(200)));
    assert_eq!(compositing_order(&stack.layers), vec![3, 1, 5, 0, 4, 2]);
}

#[test]
fn chain_is_left_alone_without_a_new_layer() {
    let paints = vec![color(0, 0, 0); 3];
    let mut stack = stack_of(&[1, 0], &paints);
    let kept = ClipLayerLastRenderTarget { render_target: Some(ImageId { index: 77 }) };
    let tail = update_render_target_chain(&mut stack.layers, false, kept);
    assert_eq!(tail, kept);
    assert!(stack.layers.iter().all(|b| b.material.previous_rt.is_none()));
}

#[test]
fn chain_of_no_layers_and_of_equal_indices() {
    let mut none: Vec<ClipLayerBundle> = Vec::new();
    let tail = update_render_target_chain(
        &mut none,
        true,
        ClipLayerLastRenderTarget { render_target: Some(ImageId { index: 1 }) },
    );
    assert_eq!(tail.render_target, None);

    let paints = vec![color(0, 0, 0); 10];
    let mut stack = stack_of(&[4, 4, 1], &paints);
    let tail = update_render_target_chain(
        &mut stack.layers,
        true,
        ClipLayerLastRenderTarget { render_target: None },
    );
    let targets: Vec<ImageId> =
        stack.layers.iter().map(|b| b.clip_layer_render_target.render_target).collect();
    assert_eq!(stack.layers[2].material.previous_rt, None);
    assert_eq!(stack.layers[0].material.previous_rt, Some(targets[2]));
    assert_eq!(stack.layers[1].material.previous_rt, Some(targets[0]));
    assert_eq!(tail.render_target, Some(targets[1]));
}

#[test]
fn stages_take_over_what_changed() {
    let paints = vec![color(0, 0, 0); 3];
    let mut stack = stack_of(&[0, 1], &paints);
    update_clip_layer_blend(&mut stack.layers);
    for bundle in &stack.layers {
        assert_eq!(bundle.material.blend_mode, 1);
        assert_eq!(bundle.material.blend.raw(), UNIT / 2);
        assert_eq!(bundle.material.clip_rt, bundle.clip_layer.get_active_render_target());
        assert!(bundle.material.clip_rt.is_some());
        assert_eq!(bundle.material.synced, Some(bundle.clip_layer.version()));
    }
    stack.layers[1].clip_layer.set_active_clip(9);
    stack.layers[1].clip_layer.set_blend(Weight::one());
    stack.layers[0].material.blend_mode = 4;
    update_clip_layer_blend(&mut stack.layers);
    assert_eq!(stack.layers[0].material.blend_mode, 4);
    assert_eq!(stack.layers[1].material.clip_rt, None);
    assert_eq!(stack.layers[1].material.blend.raw(), UNIT);
}

#[test]
fn material_encodes_the_mode() {
    let mut material = ClipLayerMaterial::new();
    assert_eq!(material.blend_mode, 0);
    assert_eq!(material.blend.raw(), UNIT / 2);
    let codes = [
        (BlendMode::Normal, 0),
        (BlendMode::Mix, 1),
        (BlendMode::Multiply, 2),
        (BlendMode::Screen, 3),
        (BlendMode::Add, 4),
        (BlendMode::Subtract, 5),
        (BlendMode::Difference, 6),
    ];
    for (mode, code) in codes {
        material.set_blend_mode(&mode);
        assert_eq!(material.blend_mode, code);
    }
}

#[test]
fn stage_with_a_bad_mode_passes_the_backdrop() {
    let mut material = ClipLayerMaterial::new();
    material.previous_rt = Some(ImageId { index: 0 });
    material.clip_rt = Some(ImageId { index: 1 });
    material.blend_mode = 42;
    let frame = vec![Some(color(1, 2, 3)), Some(color(4, 5, 6))];
    assert_eq!(channels(render_stage(&material, &frame).unwrap()), (1, 2, 3, UNIT));
    material.blend_mode = 0;
    assert_eq!(channels(render_stage(&material, &frame).unwrap()), (4, 5, 6, UNIT));
    material.clip_rt = Some(ImageId { index: 9 });
    assert_eq!(channels(render_stage(&material, &frame).unwrap()), (1, 2, 3, UNIT));
}

#[test]
fn chain_check_tells_a_broken_chain() {
    let paints = vec![color(0, 0, 0); 256];
    let mut stack = stack_of(&[9, 2, 5], &paints);
    assert!(!check_render_target_chain(&stack.layers));
    update_render_target_chain(
        &mut stack.layers,
        true,
        ClipLayerLastRenderTarget { render_target: None },
    );
    assert!(check_render_target_chain(&stack.layers));
    let kept = stack.layers[0].material.previous_rt;
    stack.layers[0].material.previous_rt = stack.layers[2].material.previous_rt;
    assert!(!check_render_target_chain(&stack.layers));
    stack.layers[0].material.previous_rt = None;
    assert!(!check_render_target_chain(&stack.layers));
    stack.layers[0].material.previous_rt = kept;
    assert!(check_render_target_chain(&stack.layers));
    stack.layers[1].material.previous_rt = Some(ImageId { index: 0 });
    assert!(!check_render_target_chain(&stack.layers));
    assert!(check_render_target_chain(&Vec::new()));
}
