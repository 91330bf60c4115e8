use pyree::blend::BlendMode;
use pyree::clip_layer::ClipLayer;
use pyree::error::{ClipError, ErrorKind};

const ALL: [BlendMode; 7] = [
    BlendMode::Normal,
    BlendMode::Mix,
    BlendMode::Multiply,
    BlendMode::Screen,
    BlendMode::Add,
    BlendMode::Subtract,
    BlendMode::Difference,
];

#[test]
fn integer_encoding_round_trips() {
    for (expected, mode) in ALL.iter().enumerate() {
        assert_eq!(mode.code(), expected as i32);
        assert_eq!(BlendMode::try_from(mode.code()), Ok(*mode));
    }
}

#[test]
fn name_encoding_round_trips() {
    let names = ["normal", "mix", "multiply", "screen", "add", "subtract", "difference"];
    for (mode, name) in ALL.iter().zip(names.iter()) {
        assert_eq!(mode.name(), *name);
        assert_eq!(BlendMode::from_str(name), Ok(*mode));
    }
}

#[test]
fn unknown_integer_is_refused() {
    assert_eq!(BlendMode::try_from(99), Err(ClipError::UnknownBlendMode));
    assert_eq!(BlendMode::try_from(7), Err(ClipError::UnknownBlendMode));
    assert_eq!(BlendMode::try_from(-1), Err(ClipError::UnknownBlendMode));
}

#[test]
fn unknown_name_is_refused() {
    assert_eq!(BlendMode::from_str("Mix"), Err(ClipError::UnknownBlendMode));
    assert_eq!(BlendMode::from_str(""), Err(ClipError::UnknownBlendMode));
    assert_eq!(BlendMode::from_str("overlay"), Err(ClipError::UnknownBlendMode));
}

#[test]
fn refused_encoding_leaves_the_mode() {
    let mut layer = ClipLayer::new(0);
    layer.set_blend_mode(BlendMode::Screen);
    let version = layer.version();
    assert_eq!(layer.set_blend_mode_code(99), Err(ClipError::UnknownBlendMode));
    assert_eq!(layer.blend_mode(), BlendMode::Screen);
    assert_eq!(layer.set_blend_mode_name("nope"), Err(ClipError::UnknownBlendMode));
    assert_eq!(layer.blend_mode(), BlendMode::Screen);
    assert_eq!(layer.version(), version);
    assert_eq!(layer.set_blend_mode_code(5), Ok(()));
    assert_eq!(layer.blend_mode(), BlendMode::Subtract);
    assert_eq!(layer.set_blend_mode_name("add"), Ok(()));
    assert_eq!(layer.blend_mode(), BlendMode::Add);
}

#[test]
fn errors_belong_to_their_families() {
    assert_eq!(ClipError::InvalidDimension.kind(), ErrorKind::Construction);
    assert_eq!(ClipError::SlotOutOfRange.kind(), ErrorKind::Addressing);
    assert_eq!(ClipError::UnknownBlendMode.kind(), ErrorKind::Addressing);
}
