//! Layers: ordered mixing stages, each with a table of clips to select from.

use std::collections::HashMap;
use vstd::prelude::*;
use crate::address::{
    ends_with, is_match, layer_address, layer_address_string, osc_match, pattern_matches,
    str_ends_with, LayerField,
};
use crate::blend::{mode_of_code, mode_of_name, BlendMode};
use crate::entity::EntityId;
use crate::error::ClipError;
use crate::image::ImageId;
use crate::message::{ArgView, ControlArg, ControlMessage, Diagnostic, MessageView, Receipt};
use crate::weight::{weight_of_bits, Weight, UNIT};

verus! {

broadcast use vstd::std_specs::hash::group_hash_axioms;

/// How many slots a layer has. Slots are numbered from zero.
pub const SLOT_COUNT: u32 = 256;

/// What a slot of a layer holds: a clip and the frame buffer it renders into.
#[derive(Clone, Copy, Debug, PartialEq, Eq, Structural)]
pub struct ClipSlot {
    pub clip: EntityId,
    pub render_target: ImageId,
}

/// A layer holds clips in numbered slots. One slot is selected; the clip in
/// it, if there is one, is blended over the output of the layer below.
#[derive(Debug)]
pub struct ClipLayer {
    layer: u8,
    slots: HashMap<u8, ClipSlot>,
    active_clip: u8,
    blend: Weight,
    blend_mode: BlendMode,
    version: u64,
}

/// What a layer holds.
pub ghost struct LayerView {
    /// The index of the layer. Layers are composited in ascending order.
    pub layer: u8,
    /// The occupied slots.
    pub slots: Map<u8, ClipSlot>,
    /// The selected slot, occupied or not.
    pub active_clip: u8,
    /// The blend weight in units of `1 / UNIT`.
    pub blend: int,
    pub blend_mode: BlendMode,
    /// Counts the changes made to the layer, so that an observer can tell
    /// whether anything happened since it last looked.
    pub version: u64,
}

/// The version after one more change. The count starts over at zero after
/// the largest value.
pub open spec fn next_version(version: u64) -> u64 {
    if version == u64::MAX {
        0
    } else {
        (version + 1) as u64
    }
}

/// The same layer, with one more change counted.
pub open spec fn touched(layer: LayerView) -> LayerView {
    LayerView { version: next_version(layer.version), ..layer }
}

/// What a slot holds, if anything.
pub open spec fn slot_at(slots: Map<u8, ClipSlot>, index: int) -> Option<ClipSlot> {
    if 0 <= index < 256 && slots.contains_key(index as u8) {
        Some(slots[index as u8])
    } else {
        None
    }
}

/// The frame buffer of the clip in the selected slot. An empty slot gives
/// no source.
pub open spec fn active_source(layer: LayerView) -> Option<ImageId> {
    match slot_at(layer.slots, layer.active_clip as int) {
        Some(slot) => Some(slot.render_target),
        None => None,
    }
}

/// The field that a message is for, going by the end of its address. A
/// message that does not carry exactly one argument is for none.
pub open spec fn addressed_field(message: MessageView) -> Option<LayerField> {
    if message.args.len() != 1 {
        None
    } else if ends_with(message.addr, LayerField::Blend.spec_suffix()) {
        Some(LayerField::Blend)
    } else if ends_with(message.addr, LayerField::BlendMode.spec_suffix()) {
        Some(LayerField::BlendMode)
    } else if ends_with(message.addr, LayerField::ActiveClip.spec_suffix()) {
        Some(LayerField::ActiveClip)
    } else {
        None
    }
}

/// The blend mode that an argument encodes, by name or by number.
pub open spec fn decoded_mode(arg: ArgView) -> Result<BlendMode, Diagnostic> {
    match arg {
        ArgView::Str(name) => match mode_of_name(name) {
            Some(mode) => Ok(mode),
            None => Err(Diagnostic::UnknownBlendMode),
        },
        ArgView::Int(code) => match mode_of_code(code) {
            Some(mode) => Ok(mode),
            None => Err(Diagnostic::UnknownBlendMode),
        },
        _ => Err(Diagnostic::WrongPayload),
    }
}

/// The weight that an argument encodes.
pub open spec fn decoded_weight(arg: ArgView) -> Result<int, Diagnostic> {
    match arg {
        ArgView::Float(bits) => match weight_of_bits(bits) {
            Some(units) => Ok(units),
            None => Err(Diagnostic::WeightOutOfRange),
        },
        _ => Err(Diagnostic::WrongPayload),
    }
}

/// The slot that an argument encodes.
pub open spec fn decoded_slot(arg: ArgView) -> Result<u8, Diagnostic> {
    match arg {
        ArgView::Int(index) => if 0 <= index <= 255 {
            Ok(index as u8)
        } else {
            Err(Diagnostic::SlotOutOfRange)
        },
        _ => Err(Diagnostic::WrongPayload),
    }
}

/// What becomes of a message that is handed to a layer.
pub open spec fn receipt_of(message: MessageView) -> Receipt {
    match addressed_field(message) {
        None => Receipt::Dropped(Diagnostic::Unprocessed),
        Some(LayerField::Blend) => match decoded_weight(message.args[0]) {
            Ok(_) => Receipt::Applied(LayerField::Blend),
            Err(why) => Receipt::Dropped(why),
        },
        Some(LayerField::BlendMode) => match decoded_mode(message.args[0]) {
            Ok(_) => Receipt::Applied(LayerField::BlendMode),
            Err(why) => Receipt::Dropped(why),
        },
        Some(LayerField::ActiveClip) => match decoded_slot(message.args[0]) {
            Ok(_) => Receipt::Applied(LayerField::ActiveClip),
            Err(why) => Receipt::Dropped(why),
        },
    }
}

/// The layer after a message was handed to it. A message sets one field or
/// nothing at all.
pub open spec fn received(layer: LayerView, message: MessageView) -> LayerView {
    match receipt_of(message) {
        Receipt::Dropped(_) => layer,
        Receipt::Applied(LayerField::Blend) => touched(
            LayerView { blend: decoded_weight(message.args[0]).unwrap(), ..layer },
        ),
        Receipt::Applied(LayerField::BlendMode) => touched(
            LayerView { blend_mode: decoded_mode(message.args[0]).unwrap(), ..layer },
        ),
        Receipt::Applied(LayerField::ActiveClip) => touched(
            LayerView { active_clip: decoded_slot(message.args[0]).unwrap(), ..layer },
        ),
    }
}

/// Whether the layer with the given index answers to an address pattern:
/// whether the pattern matches one of the layer's three addresses.
pub open spec fn answers(layer: u8, pattern: Seq<char>) -> bool {
    ||| osc_match(pattern, layer_address(layer, LayerField::Blend)) == Some(true)
    ||| osc_match(pattern, layer_address(layer, LayerField::BlendMode)) == Some(true)
    ||| osc_match(pattern, layer_address(layer, LayerField::ActiveClip)) == Some(true)
}

impl View for ClipLayer {
    type V = LayerView;

    closed spec fn view(&self) -> LayerView {
        LayerView {
            layer: self.layer,
            slots: self.slots@,
            active_clip: self.active_clip,
            blend: self.blend.value(),
            blend_mode: self.blend_mode,
            version: self.version,
        }
    }
}

impl ClipLayer {
    /// A layer without clips. The first slot is selected, the weight is one
    /// half and the mode is `Normal`.
    pub fn new(layer: u8) -> (made: ClipLayer)
        ensures
            made@ == (LayerView {
                layer,
                slots: Map::<u8, ClipSlot>::empty(),
                active_clip: 0,
                blend: UNIT as int / 2,
                blend_mode: BlendMode::Normal,
                version: 0,
            }),
    {
        ClipLayer {
            layer,
            slots: HashMap::new(),
            active_clip: 0,
            blend: Weight::half(),
            blend_mode: BlendMode::Normal,
            version: 0,
        }
    }

    /// The index of this layer.
    pub fn layer(&self) -> (index: u8)
        ensures
            index == self@.layer,
    {
        self.layer
    }

    fn touch(&mut self)
        ensures
            final(self)@ == touched(old(self)@),
    {
        self.version = if self.version == u64::MAX {
            0
        } else {
            self.version + 1
        };
    }

    /// Puts a clip and its frame buffer into a slot, in place of what the
    /// slot held. A slot that the layer does not have is refused, and the
    /// layer is then as before.
    pub fn add_clip(&mut self, index: u32, clip_entity: EntityId, render_target: ImageId) -> (done:
        Result<(), ClipError>)
        ensures
            index >= SLOT_COUNT ==> done == Err::<(), ClipError>(ClipError::SlotOutOfRange)
                && final(self)@ == old(self)@,
            index < SLOT_COUNT ==> done.is_ok() && final(self)@ == touched(
                LayerView {
                    slots: old(self)@.slots.insert(
                        index as u8,
                        ClipSlot { clip: clip_entity, render_target },
                    ),
                    ..old(self)@
                },
            ),
    {
        if index >= SLOT_COUNT {
            return Err(ClipError::SlotOutOfRange);
        }
        self.slots.insert(index as u8, ClipSlot { clip: clip_entity, render_target });
        self.touch();
        Ok(())
    }

    /// Empties a slot. A slot that the layer does not have is refused, and
    /// the layer is then as before.
    pub fn remove_clip(&mut self, index: u32) -> (done: Result<(), ClipError>)
        ensures
            index >= SLOT_COUNT ==> done == Err::<(), ClipError>(ClipError::SlotOutOfRange)
                && final(self)@ == old(self)@,
            index < SLOT_COUNT ==> done.is_ok() && final(self)@ == touched(
                LayerView { slots: old(self)@.slots.remove(index as u8), ..old(self)@ },
            ),
    {
        if index >= SLOT_COUNT {
            return Err(ClipError::SlotOutOfRange);
        }
        let key: u8 = index as u8;
        self.slots.remove(&key);
        self.touch();
        Ok(())
    }

    /// What a slot holds, if anything.
    pub fn get_slot(&self, index: u8) -> (slot: Option<ClipSlot>)
        ensures
            slot == slot_at(self@.slots, index as int),
    {
        match self.slots.get(&index) {
            Some(slot) => Some(*slot),
            None => None,
        }
    }

    /// The frame buffer of the clip in the selected slot, or `None` where
    /// that slot is empty.
    pub fn get_active_render_target(&self) -> (target: Option<ImageId>)
        ensures
            target == active_source(self@),
    {
        match self.get_slot(self.active_clip) {
            Some(slot) => Some(slot.render_target),
            None => None,
        }
    }

    /// Selects a slot, occupied or not.
    pub fn set_active_clip(&mut self, index: u8)
        ensures
            final(self)@ == touched(LayerView { active_clip: index, ..old(self)@ }),
    {
        self.active_clip = index;
        self.touch();
    }

    /// The selected slot.
    pub fn get_active_clip(&self) -> (index: u8)
        ensures
            index == self@.active_clip,
    {
        self.active_clip
    }

    /// The clip of every slot, in the order of the slots.
    pub fn get_clips(&self) -> (clips: Vec<Option<EntityId>>)
        ensures
            clips@.len() == SLOT_COUNT,
            forall|i: int|
                0 <= i < SLOT_COUNT ==> #[trigger] clips@[i] == match slot_at(self@.slots, i) {
                    Some(slot) => Some(slot.clip),
                    None => None,
                },
    {
        let mut clips: Vec<Option<EntityId>> = Vec::new();
        let mut i: u32 = 0;
        while i < SLOT_COUNT
            invariant
                i <= SLOT_COUNT,
                clips@.len() == i,
                forall|k: int|
                    0 <= k < i ==> #[trigger] clips@[k] == match slot_at(self@.slots, k) {
                        Some(slot) => Some(slot.clip),
                        None => None,
                    },
            decreases SLOT_COUNT - i,
        {
            let entry: Option<EntityId> = match self.get_slot(i as u8) {
                Some(slot) => Some(slot.clip),
                None => None,
            };
            clips.push(entry);
            i = i + 1;
        }
        clips
    }

    /// The frame buffer of every slot, in the order of the slots.
    pub fn get_render_targets(&self) -> (targets: Vec<Option<ImageId>>)
        ensures
            targets@.len() == SLOT_COUNT,
            forall|i: int|
                0 <= i < SLOT_COUNT ==> #[trigger] targets@[i] == match slot_at(self@.slots, i) {
                    Some(slot) => Some(slot.render_target),
                    None => None,
                },
    {
        let mut targets: Vec<Option<ImageId>> = Vec::new();
        let mut i: u32 = 0;
        while i < SLOT_COUNT
            invariant
                i <= SLOT_COUNT,
                targets@.len() == i,
                forall|k: int|
                    0 <= k < i ==> #[trigger] targets@[k] == match slot_at(self@.slots, k) {
                        Some(slot) => Some(slot.render_target),
                        None => None,
                    },
            decreases SLOT_COUNT - i,
        {
            let entry: Option<ImageId> = match self.get_slot(i as u8) {
                Some(slot) => Some(slot.render_target),
                None => None,
            };
            targets.push(entry);
            i = i + 1;
        }
        targets
    }

    /// The blend weight.
    pub fn blend(&self) -> (weight: Weight)
        ensures
            weight.value() == self@.blend,
    {
        self.blend
    }

    /// Sets the blend weight.
    pub fn set_blend(&mut self, weight: Weight)
        ensures
            final(self)@ == touched(LayerView { blend: weight.value(), ..old(self)@ }),
    {
        self.blend = weight;
        self.touch();
    }

    /// The blend mode.
    pub fn blend_mode(&self) -> (mode: BlendMode)
        ensures
            mode == self@.blend_mode,
    {
        self.blend_mode
    }

    /// Sets the blend mode.
    pub fn set_blend_mode(&mut self, mode: BlendMode)
        ensures
            final(self)@ == touched(LayerView { blend_mode: mode, ..old(self)@ }),
    {
        self.blend_mode = mode;
        self.touch();
    }

    /// Sets the blend mode from its integer encoding. An integer that
    /// encodes no mode is refused, and the layer is then as before.
    pub fn set_blend_mode_code(&mut self, code: i32) -> (done: Result<(), ClipError>)
        ensures
            match mode_of_code(code as int) {
                Some(mode) => done.is_ok() && final(self)@ == touched(
                    LayerView { blend_mode: mode, ..old(self)@ },
                ),
                None => done == Err::<(), ClipError>(ClipError::UnknownBlendMode) && final(self)@
                    == old(self)@,
            },
    {
        match BlendMode::try_from(code) {
            Ok(mode) => {
                self.set_blend_mode(mode);
                Ok(())
            },
            Err(e) => Err(e),
        }
    }

    /// Sets the blend mode from its name. A string that names no mode is
    /// refused, and the layer is then as before.
    pub fn set_blend_mode_name(&mut self, name: &str) -> (done: Result<(), ClipError>)
        ensures
            match mode_of_name(name@) {
                Some(mode) => done.is_ok() && final(self)@ == touched(
                    LayerView { blend_mode: mode, ..old(self)@ },
                ),
                None => done == Err::<(), ClipError>(ClipError::UnknownBlendMode) && final(self)@
                    == old(self)@,
            },
    {
        match BlendMode::from_str(name) {
            Ok(mode) => {
                self.set_blend_mode(mode);
                Ok(())
            },
            Err(e) => Err(e),
        }
    }

    /// How many changes were made to the layer, counted as `next_version`
    /// counts them.
    pub fn version(&self) -> (version: u64)
        ensures
            version == self@.version,
    {
        self.version
    }

    /// The three addresses of this layer: of its weight, of its mode and of
    /// its selected slot.
    pub fn get_addresses(&self) -> (addresses: Vec<String>)
        ensures
            addresses@.len() == 3,
            addresses@[0]@ == layer_address(self@.layer, LayerField::Blend),
            addresses@[1]@ == layer_address(self@.layer, LayerField::BlendMode),
            addresses@[2]@ == layer_address(self@.layer, LayerField::ActiveClip),
    {
        let mut addresses: Vec<String> = Vec::new();
        addresses.push(layer_address_string(self.layer, LayerField::Blend));
        addresses.push(layer_address_string(self.layer, LayerField::BlendMode));
        addresses.push(layer_address_string(self.layer, LayerField::ActiveClip));
        addresses
    }

    /// Takes a message that was sent to this layer. The end of the address
    /// picks the field, and the one argument must be of the type that the
    /// field takes: a number from zero to one for the weight, a name or an
    /// integer for the mode, an integer for the slot. Anything else is
    /// dropped, and the layer is then as before.
    pub fn receive_message(&mut self, osc_message: &ControlMessage) -> (receipt: Receipt)
        ensures
            receipt == receipt_of(osc_message@),
            final(self)@ == received(old(self)@, osc_message@),
    {
        if osc_message.args.len() != 1 {
            return Receipt::Dropped(Diagnostic::Unprocessed);
        }
        let addr: &str = osc_message.addr.as_str();
        let arg: &ControlArg = &osc_message.args[0];
        assert(osc_message@.args[0] == arg@);
        if str_ends_with(addr, LayerField::Blend.suffix()) {
            match arg {
                ControlArg::Float(bits) => match Weight::from_float_bits(*bits) {
                    Some(weight) => {
                        self.set_blend(weight);
                        Receipt::Applied(LayerField::Blend)
                    },
                    None => Receipt::Dropped(Diagnostic::WeightOutOfRange),
                },
                _ => Receipt::Dropped(Diagnostic::WrongPayload),
            }
        } else if str_ends_with(addr, LayerField::BlendMode.suffix()) {
            match arg {
                ControlArg::Str(name) => match BlendMode::from_str(name.as_str()) {
                    Ok(mode) => {
                        self.set_blend_mode(mode);
                        Receipt::Applied(LayerField::BlendMode)
                    },
                    Err(_) => Receipt::Dropped(Diagnostic::UnknownBlendMode),
                },
                ControlArg::Int(code) => match BlendMode::try_from(*code) {
                    Ok(mode) => {
                        self.set_blend_mode(mode);
                        Receipt::Applied(LayerField::BlendMode)
                    },
                    Err(_) => Receipt::Dropped(Diagnostic::UnknownBlendMode),
                },
                _ => Receipt::Dropped(Diagnostic::WrongPayload),
            }
        } else if str_ends_with(addr, LayerField::ActiveClip.suffix()) {
            match arg {
                ControlArg::Int(index) => {
                    if 0 <= *index && *index <= 255 {
                        self.set_active_clip(*index as u8);
                        Receipt::Applied(LayerField::ActiveClip)
                    } else {
                        Receipt::Dropped(Diagnostic::SlotOutOfRange)
                    }
                },
                _ => Receipt::Dropped(Diagnostic::WrongPayload),
            }
        } else {
            Receipt::Dropped(Diagnostic::Unprocessed)
        }
    }

    /// Whether this layer answers to an address pattern.
    pub fn matches(&self, pattern: &str) -> (matched: bool)
        ensures
            matched == answers(self@.layer, pattern@),
    {
        let blend: String = layer_address_string(self.layer, LayerField::Blend);
        if is_match(pattern_matches(pattern, blend.as_str())) {
            return true;
        }
        let mode: String = layer_address_string(self.layer, LayerField::BlendMode);
        if is_match(pattern_matches(pattern, mode.as_str())) {
            return true;
        }
        let active: String = layer_address_string(self.layer, LayerField::ActiveClip);
        is_match(pattern_matches(pattern, active.as_str()))
    }

    /// Takes a message if its address pattern matches an address of this
    /// layer, and says what became of it; leaves the layer as it is and
    /// says `None` if not.
    pub fn match_message(&mut self, osc_message: &ControlMessage) -> (receipt: Option<Receipt>)
        ensures
            answers(old(self)@.layer, osc_message@.addr) ==> receipt == Some(
                receipt_of(osc_message@),
            ) && final(self)@ == received(old(self)@, osc_message@),
            !answers(old(self)@.layer, osc_message@.addr) ==> receipt.is_none() && final(self)@
                == old(self)@,
    {
        if self.matches(osc_message.addr.as_str()) {
            Some(self.receive_message(osc_message))
        } else {
            None
        }
    }
}

/// A message changes at most the field it is for: the index and the slots
/// of a layer stay, and of weight, mode and selected slot only the one that
/// the receipt names can differ.
pub proof fn lemma_received_sets_one_field(layer: LayerView, message: MessageView)
    ensures
        received(layer, message).layer == layer.layer,
        received(layer, message).slots == layer.slots,
        receipt_of(message) != Receipt::Applied(LayerField::Blend) ==> received(
            layer,
            message,
        ).blend == layer.blend,
        receipt_of(message) != Receipt::Applied(LayerField::BlendMode) ==> received(
            layer,
            message,
        ).blend_mode == layer.blend_mode,
        receipt_of(message) != Receipt::Applied(LayerField::ActiveClip) ==> received(
            layer,
            message,
        ).active_clip == layer.active_clip,
        receipt_of(message) is Dropped ==> received(layer, message) == layer,
{
}

} // verus!
