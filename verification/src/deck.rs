//! A deck: two clips and a crossfader between them.
//!
//! A deck is the smallest mixer there is. It has no chain and no choice of
//! mode; it mixes what its second slot holds over what its first slot
//! holds, by the weight of the crossfader.

use vstd::prelude::*;
use crate::blend::BlendMode;
use crate::clip_layer::{next_version, ClipSlot};
use crate::color::{composite_pixel, option_view, Color, ColorView};
use crate::frame::{frame_view, sample, sampled};
use crate::image::ImageId;
use crate::weight::Weight;

verus! {

/// The render order of the camera of a deck: after everything else.
pub const DECK_CAMERA_PRIORITY: isize = 10000000;

/// The render layer that a deck and its camera are on.
pub const DECK_RENDER_LAYER: u8 = 10;

/// A deck with two slots and a crossfader.
#[derive(Clone, Copy, Debug)]
pub struct Deck2 {
    slot_a: Option<ClipSlot>,
    slot_b: Option<ClipSlot>,
    crossfade: Weight,
    version: u64,
}

/// What a deck holds.
pub ghost struct DeckView {
    pub slot_a: Option<ClipSlot>,
    pub slot_b: Option<ClipSlot>,
    /// The crossfade in units of `1 / UNIT`: zero shows the first slot,
    /// one shows the second.
    pub crossfade: int,
    /// Counts the changes made to the deck.
    pub version: u64,
}

impl View for Deck2 {
    type V = DeckView;

    closed spec fn view(&self) -> DeckView {
        DeckView {
            slot_a: self.slot_a,
            slot_b: self.slot_b,
            crossfade: self.crossfade.value(),
            version: self.version,
        }
    }
}

/// The same deck, with one more change counted.
pub open spec fn touched_deck(deck: DeckView) -> DeckView {
    DeckView { version: next_version(deck.version), ..deck }
}

impl Deck2 {
    /// A deck with both slots empty and the crossfader at the first slot.
    pub fn new() -> (deck: Deck2)
        ensures
            deck@ == (DeckView { slot_a: None, slot_b: None, crossfade: 0, version: 0 }),
    {
        Deck2 { slot_a: None, slot_b: None, crossfade: Weight::zero(), version: 0 }
    }

    fn touch(&mut self)
        ensures
            final(self)@ == touched_deck(old(self)@),
    {
        self.version = if self.version == u64::MAX {
            0
        } else {
            self.version + 1
        };
    }

    /// Fills or empties the first slot.
    pub fn set_slot_a(&mut self, slot: Option<ClipSlot>)
        ensures
            final(self)@ == touched_deck(DeckView { slot_a: slot, ..old(self)@ }),
    {
        self.slot_a = slot;
        self.touch();
    }

    /// Fills or empties the second slot.
    pub fn set_slot_b(&mut self, slot: Option<ClipSlot>)
        ensures
            final(self)@ == touched_deck(DeckView { slot_b: slot, ..old(self)@ }),
    {
        self.slot_b = slot;
        self.touch();
    }

    /// Moves the crossfader.
    pub fn set_crossfade(&mut self, crossfade: Weight)
        ensures
            final(self)@ == touched_deck(DeckView { crossfade: crossfade.value(), ..old(self)@ }),
    {
        self.crossfade = crossfade;
        self.touch();
    }

    /// What the first slot holds.
    pub fn slot_a(&self) -> (slot: Option<ClipSlot>)
        ensures
            slot == self@.slot_a,
    {
        self.slot_a
    }

    /// What the second slot holds.
    pub fn slot_b(&self) -> (slot: Option<ClipSlot>)
        ensures
            slot == self@.slot_b,
    {
        self.slot_b
    }

    /// Where the crossfader stands.
    pub fn crossfade(&self) -> (crossfade: Weight)
        ensures
            crossfade.value() == self@.crossfade,
    {
        self.crossfade
    }

    /// How many changes were made to the deck.
    pub fn version(&self) -> (version: u64)
        ensures
            version == self@.version,
    {
        self.version
    }
}

impl Default for Deck2 {
    fn default() -> (deck: Deck2)
        ensures
            deck@ == (DeckView { slot_a: None, slot_b: None, crossfade: 0, version: 0 }),
    {
        Deck2::new()
    }
}

/// The inputs of the compositing stage of a deck.
#[derive(Clone, Copy, Debug)]
pub struct Deck2Material {
    /// The weight of the second image.
    pub fade_ab: Weight,
    /// The frame buffer of the clip in the first slot.
    pub image_a: Option<ImageId>,
    /// The frame buffer of the clip in the second slot.
    pub image_b: Option<ImageId>,
    /// The version of the deck that the inputs were taken from; `None`
    /// before the first time.
    pub synced: Option<u64>,
}

/// What the inputs of the stage of a deck hold.
pub ghost struct DeckMaterialView {
    pub fade_ab: int,
    pub image_a: Option<ImageId>,
    pub image_b: Option<ImageId>,
    pub synced: Option<u64>,
}

impl View for Deck2Material {
    type V = DeckMaterialView;

    open spec fn view(&self) -> DeckMaterialView {
        DeckMaterialView {
            fade_ab: self.fade_ab.value(),
            image_a: self.image_a,
            image_b: self.image_b,
            synced: self.synced,
        }
    }
}

/// The frame buffer of what a slot holds.
pub open spec fn slot_image(slot: Option<ClipSlot>) -> Option<ImageId> {
    match slot {
        Some(held) => Some(held.render_target),
        None => None,
    }
}

/// The inputs of the stage after the deck was copied into them.
pub open spec fn deck_synced(deck: DeckView) -> DeckMaterialView {
    DeckMaterialView {
        fade_ab: deck.crossfade,
        image_a: slot_image(deck.slot_a),
        image_b: slot_image(deck.slot_b),
        synced: Some(deck.version),
    }
}

/// What the stage of a deck puts out: the second image mixed over the
/// first. With one image missing the other one shows as it is.
pub open spec fn deck_output(material: DeckMaterialView, frame: Seq<Option<ColorView>>) -> Option<
    ColorView,
> {
    composite_pixel(
        BlendMode::Mix,
        sampled(frame, material.image_a),
        sampled(frame, material.image_b),
        material.fade_ab,
    )
}

impl Deck2Material {
    /// The inputs of a stage that has seen nothing yet.
    pub fn new() -> (material: Deck2Material)
        ensures
            material@ == (DeckMaterialView {
                fade_ab: 0,
                image_a: None,
                image_b: None,
                synced: None,
            }),
    {
        Deck2Material { fade_ab: Weight::zero(), image_a: None, image_b: None, synced: None }
    }

    /// What the stage puts out for the frame it is given.
    pub fn render(&self, frame: &Vec<Option<Color>>) -> (out: Option<Color>)
        ensures
            option_view(out) == deck_output(self@, frame_view(frame@)),
    {
        let first: Option<Color> = sample(frame, self.image_a);
        let second: Option<Color> = sample(frame, self.image_b);
        Color::composite(BlendMode::Mix, first, second, &self.fade_ab)
    }
}

/// Copies the deck into the inputs of its stage if the deck changed since
/// the stage last looked, and says whether it did.
pub fn update_deck2(deck: &Deck2, material: &mut Deck2Material) -> (changed: bool)
    ensures
        changed == (old(material)@.synced != Some(deck@.version)),
        changed ==> final(material)@ == deck_synced(deck@),
        !changed ==> final(material)@ == old(material)@,
{
    let version: u64 = deck.version();
    let stale: bool = match material.synced {
        Some(seen) => seen != version,
        None => true,
    };
    if stale {
        material.fade_ab = deck.crossfade();
        material.image_a = match deck.slot_a() {
            Some(held) => Some(held.render_target),
            None => None,
        };
        material.image_b = match deck.slot_b() {
            Some(held) => Some(held.render_target),
            None => None,
        };
        material.synced = Some(version);
    }
    stale
}

/// The crossfade of a deck, taken out of it for the render phase.
#[derive(Clone, Copy, Debug)]
pub struct ExtractedCrossfade(pub Weight);

impl ExtractedCrossfade {
    /// Takes the crossfade out of a deck.
    pub fn extract_resource(source: &Deck2) -> (extracted: ExtractedCrossfade)
        ensures
            extracted.0.value() == source@.crossfade,
    {
        ExtractedCrossfade(source.crossfade())
    }
}

/// Hands the crossfade that was taken out of the deck to every stage that
/// renders the deck. The images of the stages stay.
pub fn prepare_deck2(materials: &mut Vec<Deck2Material>, crossfade: &ExtractedCrossfade)
    ensures
        final(materials)@.len() == old(materials)@.len(),
        forall|i: int|
            0 <= i < old(materials)@.len() ==> (#[trigger] final(materials)@[i])@
                == (DeckMaterialView { fade_ab: crossfade.0.value(), ..old(materials)@[i]@ }),
{
    let n: usize = materials.len();
    let mut i: usize = 0;
    while i < n
        invariant
            i <= n,
            n == materials@.len(),
            n == old(materials)@.len(),
            forall|k: int| i <= k < n ==> materials@[k] == old(materials)@[k],
            forall|k: int|
                0 <= k < i ==> (#[trigger] materials@[k])@ == (DeckMaterialView {
                    fade_ab: crossfade.0.value(),
                    ..old(materials)@[k]@
                }),
        decreases n - i,
    {
        materials[i].fade_ab = crossfade.0;
        i = i + 1;
    }
}

} // verus!
