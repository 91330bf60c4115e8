use pyree::address::{layer_address_string, str_ends_with, LayerField};
use pyree::blend::BlendMode;
use pyree::bundles::ClipLayerBundle;
use pyree::clip_layer::ClipLayer;
use pyree::control::{apply_control_messages, dispatch_message, ControlQueue};
use pyree::error::ErrorKind;
use pyree::image::Images;
use pyree::message::{ControlArg, ControlMessage, Diagnostic, Receipt};
use pyree::weight::UNIT;

fn message(addr: &str, arg: ControlArg) -> ControlMessage {
    ControlMessage { addr: addr.to_string(), args: vec![arg] }
}

fn three_layers() -> Vec<ClipLayerBundle> {
    let mut images = Images::new();
    vec![
        ClipLayerBundle::new(0, &mut images),
        ClipLayerBundle::new(1, &mut images),
        ClipLayerBundle::new(2, &mut images),
    ]
}

#[test]
fn addresses_of_a_layer() {
    let layer = ClipLayer::new(2);
    assert_eq!(
        layer.get_addresses(),
        vec![
            "/clip_layer/2/blend".to_string(),
            "/clip_layer/2/blend_mode".to_string(),
            "/clip_layer/2/active_clip".to_string(),
        ]
    );
    assert_eq!(layer_address_string(0, LayerField::Blend), "/clip_layer/0/blend");
    assert_eq!(layer_address_string(10, LayerField::Blend), "/clip_layer/10/blend");
    assert_eq!(layer_address_string(99, LayerField::BlendMode), "/clip_layer/99/blend_mode");
    assert_eq!(layer_address_string(100, LayerField::ActiveClip), "/clip_layer/100/active_clip");
    assert_eq!(layer_address_string(255, LayerField::ActiveClip), "/clip_layer/255/active_clip");
}

#[test]
fn suffixes() {
    assert!(str_ends_with("/clip_layer/2/blend", "/blend"));
    assert!(!str_ends_with("/clip_layer/2/blend_mode", "/blend"));
    assert!(!str_ends_with("end", "/blend"));
    assert!(str_ends_with("/blend", "/blend"));
    assert!(str_ends_with("anything", ""));
}

#[test]
fn active_clip_reaches_one_layer() {
    let mut layers = three_layers();
    let receipts =
        dispatch_message(&mut layers, &message("/clip_layer/2/active_clip", ControlArg::Int(5)));
    assert_eq!(receipts, vec![None, None, Some(Receipt::Applied(LayerField::ActiveClip))]);
    assert_eq!(layers[2].clip_layer.get_active_clip(), 5);
    assert_eq!(layers[2].clip_layer.version(), 1);
    for other in &layers[..2] {
        assert_eq!(other.clip_layer.get_active_clip(), 0);
        assert_eq!(other.clip_layer.version(), 0);
        assert_eq!(other.clip_layer.blend().raw(), UNIT / 2);
        assert_eq!(other.clip_layer.blend_mode(), BlendMode::Normal);
    }
    assert_eq!(layers[2].clip_layer.blend().raw(), UNIT / 2);
    assert_eq!(layers[2].clip_layer.blend_mode(), BlendMode::Normal);
}

#[test]
fn active_clip_with_float_is_dropped() {
    let mut layers = three_layers();
    let receipts = dispatch_message(
        &mut layers,
        &message("/clip_layer/2/active_clip", ControlArg::Float(5.0f32.to_bits())),
    );
    assert_eq!(receipts, vec![None, None, Some(Receipt::Dropped(Diagnostic::WrongPayload))]);
    for layer in &layers {
        assert_eq!(layer.clip_layer.get_active_clip(), 0);
        assert_eq!(layer.clip_layer.version(), 0);
    }
}

#[test]
fn wildcard_reaches_every_layer() {
    let mut layers = three_layers();
    let receipts = dispatch_message(
        &mut layers,
        &message("/clip_layer/*/blend", ControlArg::Float(0.25f32.to_bits())),
    );
    assert_eq!(receipts, vec![Some(Receipt::Applied(LayerField::Blend)); 3]);
    for layer in &layers {
        assert_eq!(layer.clip_layer.blend().raw(), UNIT / 4);
    }
    let receipts = dispatch_message(
        &mut layers,
        &message("/clip_layer/[0-1]/blend_mode", ControlArg::Str("screen".to_string())),
    );
    assert_eq!(
        receipts,
        vec![
            Some(Receipt::Applied(LayerField::BlendMode)),
            Some(Receipt::Applied(LayerField::BlendMode)),
            None
        ]
    );
    assert_eq!(layers[0].clip_layer.blend_mode(), BlendMode::Screen);
    assert_eq!(layers[1].clip_layer.blend_mode(), BlendMode::Screen);
    assert_eq!(layers[2].clip_layer.blend_mode(), BlendMode::Normal);
}

#[test]
fn malformed_pattern_reaches_nobody() {
    let mut layers = three_layers();
    for addr in ["", "clip_layer/2/blend", "/clip_layer/2/blend/", "/clip_layer/{2/blend"] {
        let receipts =
            dispatch_message(&mut layers, &message(addr, ControlArg::Float(1.0f32.to_bits())));
        assert_eq!(receipts, vec![None, None, None]);
    }
    for layer in &layers {
        assert_eq!(layer.clip_layer.version(), 0);
    }
}

#[test]
fn receive_sets_the_field_of_the_suffix() {
    let mut layer = ClipLayer::new(7);
    assert_eq!(
        layer.receive_message(&message("/x/blend", ControlArg::Float(1.0f32.to_bits()))),
        Receipt::Applied(LayerField::Blend)
    );
    assert_eq!(layer.blend().raw(), UNIT);
    assert_eq!(
        layer.receive_message(&message("/x/blend_mode", ControlArg::Int(1))),
        Receipt::Applied(LayerField::BlendMode)
    );
    assert_eq!(layer.blend_mode(), BlendMode::Mix);
    assert_eq!(
        layer.receive_message(&message("/x/blend_mode", ControlArg::Str("difference".into()))),
        Receipt::Applied(LayerField::BlendMode)
    );
    assert_eq!(layer.blend_mode(), BlendMode::Difference);
    assert_eq!(
        layer.receive_message(&message("/x/active_clip", ControlArg::Int(255))),
        Receipt::Applied(LayerField::ActiveClip)
    );
    assert_eq!(layer.get_active_clip(), 255);
    assert_eq!(layer.version(), 4);
}

#[test]
fn receive_drops_what_does_not_fit() {
    let mut layer = ClipLayer::new(7);
    let cases = vec![
        (message("/x/blend", ControlArg::Int(1)), Diagnostic::WrongPayload),
        (message("/x/blend", ControlArg::Float(1.5f32.to_bits())), Diagnostic::WeightOutOfRange),
        (message("/x/blend", ControlArg::Float((-0.5f32).to_bits())), Diagnostic::WeightOutOfRange),
        (message("/x/blend", ControlArg::Float(f32::NAN.to_bits())), Diagnostic::WeightOutOfRange),
        (message("/x/blend", ControlArg::Float(f32::INFINITY.to_bits())), Diagnostic::WeightOutOfRange),
        (message("/x/blend_mode", ControlArg::Int(99)), Diagnostic::UnknownBlendMode),
        (message("/x/blend_mode", ControlArg::Str("Mix".into())), Diagnostic::UnknownBlendMode),
        (message("/x/blend_mode", ControlArg::Float(0)), Diagnostic::WrongPayload),
        (message("/x/active_clip", ControlArg::Int(256)), Diagnostic::SlotOutOfRange),
        (message("/x/active_clip", ControlArg::Int(-1)), Diagnostic::SlotOutOfRange),
        (message("/x/active_clip", ControlArg::Other), Diagnostic::WrongPayload),
        (message("/x/volume", ControlArg::Int(1)), Diagnostic::Unprocessed),
        (ControlMessage { addr: "/x/blend".into(), args: vec![] }, Diagnostic::Unprocessed),
        (
            ControlMessage {
                addr: "/x/active_clip".into(),
                args: vec![ControlArg::Int(1), ControlArg::Int(2)],
            },
            Diagnostic::Unprocessed,
        ),
    ];
    for (msg, why) in cases {
        assert_eq!(layer.receive_message(&msg), Receipt::Dropped(why));
        assert_eq!(layer.version(), 0);
        assert_eq!(layer.get_active_clip(), 0);
        assert_eq!(layer.blend().raw(), UNIT / 2);
        assert_eq!(layer.blend_mode(), BlendMode::Normal);
    }
}

#[test]
fn queue_is_applied_once_and_in_order() {
    let mut layers = three_layers();
    let mut queue = ControlQueue::new();
    queue.push(message("/clip_layer/1/active_clip", ControlArg::Int(3)));
    queue.push(message("/clip_layer/1/active_clip", ControlArg::Int(4)));
    queue.push(message("/clip_layer/0/blend_mode", ControlArg::Int(6)));
    assert_eq!(queue.len(), 3);
    apply_control_messages(&mut layers, &mut queue);
    assert_eq!(queue.len(), 0);
    assert_eq!(layers[1].clip_layer.get_active_clip(), 4);
    assert_eq!(layers[1].clip_layer.version(), 2);
    assert_eq!(layers[0].clip_layer.blend_mode(), BlendMode::Difference);
    assert_eq!(layers[2].clip_layer.version(), 0);
    apply_control_messages(&mut layers, &mut queue);
    assert_eq!(layers[1].clip_layer.version(), 2);
}

#[test]
fn diagnostics_belong_to_their_families() {
    assert_eq!(Diagnostic::WrongPayload.kind(), ErrorKind::Protocol);
    assert_eq!(Diagnostic::WeightOutOfRange.kind(), ErrorKind::Protocol);
    assert_eq!(Diagnostic::Unprocessed.kind(), ErrorKind::Protocol);
    assert_eq!(Diagnostic::UnknownBlendMode.kind(), ErrorKind::Addressing);
    assert_eq!(Diagnostic::SlotOutOfRange.kind(), ErrorKind::Addressing);
}
