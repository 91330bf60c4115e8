use pyree::beat::{osc_beat_receiver_system, Beat, BeatCounter, BeatEvent, OscBeatReceiverPlugin};
use pyree::clip_layer::ClipSlot;
use pyree::color::Color;
use pyree::deck::{
    prepare_deck2, update_deck2, Deck2, Deck2Material, ExtractedCrossfade, DECK_CAMERA_PRIORITY,
    DECK_RENDER_LAYER,
};
use pyree::entity::EntityId;
use pyree::image::ImageId;
use pyree::message::{ControlArg, ControlMessage};
use pyree::weight::{Weight, UNIT};

fn slot(index: usize) -> Option<ClipSlot> {
    Some(ClipSlot { clip: EntityId { index }, render_target: ImageId { index } })
}

fn channels(c: Option<Color>) -> Option<(u32, u32, u32, u32)> {
    c.map(|c| (c.red(), c.green(), c.blue(), c.alpha()))
}

#[test]
fn deck_starts_empty() {
    for deck in [Deck2::new(), Deck2::default()] {
        assert_eq!(deck.slot_a(), None);
        assert_eq!(deck.slot_b(), None);
        assert_eq!(deck.crossfade().raw(), 0);
        assert_eq!(deck.version(), 0);
    }
    let material = Deck2Material::new();
    assert_eq!(material.fade_ab.raw(), 0);
    assert_eq!(material.image_a, None);
    assert_eq!(material.image_b, None);
    assert_eq!(DECK_CAMERA_PRIORITY, 10_000_000);
    assert_eq!(DECK_RENDER_LAYER, 10);
}

#[test]
fn deck_stage_follows_the_deck_when_it_changed() {
    let mut deck = Deck2::new();
    let mut material = Deck2Material::new();
    assert!(update_deck2(&deck, &mut material));
    assert!(!update_deck2(&deck, &mut material));
    deck.set_slot_a(slot(0));
    deck.set_slot_b(slot(1));
    deck.set_crossfade(Weight::from_raw(16384).unwrap());
    material.fade_ab = Weight::one();
    assert!(update_deck2(&deck, &mut material));
    assert_eq!(material.image_a, Some(ImageId { index: 0 }));
    assert_eq!(material.image_b, Some(ImageId { index: 1 }));
    assert_eq!(material.fade_ab.raw(), 16384);
    material.fade_ab = Weight::one();
    assert!(!update_deck2(&deck, &mut material));
    assert_eq!(material.fade_ab.raw(), UNIT);
}

#[test]
fn deck_crossfades() {
    let frame = vec![Color::new(UNIT, 0, 0, UNIT), Color::new(0, 0, UNIT, UNIT)];
    let mut deck = Deck2::new();
    let mut material = Deck2Material::new();
    deck.set_slot_a(slot(0));
    deck.set_slot_b(slot(1));
    let mut at = |units: u32| {
        deck.set_crossfade(Weight::from_raw(units).unwrap());
        update_deck2(&deck, &mut material);
        channels(material.render(&frame))
    };
    assert_eq!(at(0), Some((UNIT, 0, 0, UNIT)));
    assert_eq!(at(UNIT), Some((0, 0, UNIT, UNIT)));
    assert_eq!(at(UNIT / 4), Some((49152, 0, 16384, UNIT)));
    deck.set_slot_b(None);
    update_deck2(&deck, &mut material);
    assert_eq!(channels(material.render(&frame)), Some((UNIT, 0, 0, UNIT)));
    deck.set_slot_a(None);
    update_deck2(&deck, &mut material);
    assert_eq!(channels(material.render(&frame)), None);
}

#[test]
fn crossfade_is_extracted_and_prepared() {
    let mut deck = Deck2::new();
    deck.set_crossfade(Weight::half());
    let extracted = ExtractedCrossfade::extract_resource(&deck);
    assert_eq!(extracted.0.raw(), UNIT / 2);
    let mut materials = vec![Deck2Material::new(), Deck2Material::new()];
    materials[1].image_a = Some(ImageId { index: 4 });
    prepare_deck2(&mut materials, &extracted);
    assert_eq!(materials[0].fade_ab.raw(), UNIT / 2);
    assert_eq!(materials[1].fade_ab.raw(), UNIT / 2);
    assert_eq!(materials[1].image_a, Some(ImageId { index: 4 }));
    assert_eq!(materials[0].image_a, None);
}

#[test]
fn beats_are_counted() {
    let beat = Beat::new(true, 12);
    assert!(beat.get_beat());
    assert_eq!(beat.get_beat_counter(), 12);
    let plugin = OscBeatReceiverPlugin::default();
    assert_eq!(plugin.address, "/beat");
    let mut counter = BeatCounter { count: 40 };
    let at = |addr: &str| ControlMessage { addr: addr.to_string(), args: vec![ControlArg::Other] };
    let messages = vec![at("/beat"), at("/clip_layer/0/blend"), at("/b*"), at("/beat/x"), at("/?eat")];
    let events = osc_beat_receiver_system(&mut counter, &plugin, &messages);
    assert_eq!(
        events,
        vec![BeatEvent { count: 41 }, BeatEvent { count: 42 }, BeatEvent { count: 43 }]
    );
    assert_eq!(counter.count, 43);
    assert_eq!(osc_beat_receiver_system(&mut counter, &plugin, &Vec::new()), Vec::new());
    assert_eq!(counter.count, 43);
}
