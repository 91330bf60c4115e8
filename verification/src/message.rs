//! Control messages as they come off the network.

use vstd::prelude::*;
use crate::address::LayerField;
use crate::error::ErrorKind;

verus! {

/// One argument of a control message.
#[derive(Debug)]
pub enum ControlArg {
    /// A 32-bit integer.
    Int(i32),
    /// A single-precision number, as its IEEE 754 bit pattern.
    Float(u32),
    /// A string.
    Str(String),
    /// An argument of any other type. No address takes one.
    Other,
}

/// One argument of a control message, as a value.
pub ghost enum ArgView {
    Int(int),
    Float(u32),
    Str(Seq<char>),
    Other,
}

impl View for ControlArg {
    type V = ArgView;

    open spec fn view(&self) -> ArgView {
        match self {
            ControlArg::Int(value) => ArgView::Int(*value as int),
            ControlArg::Float(bits) => ArgView::Float(*bits),
            ControlArg::Str(text) => ArgView::Str(text@),
            ControlArg::Other => ArgView::Other,
        }
    }
}

/// A control message: an address pattern and the arguments sent to it.
#[derive(Debug)]
pub struct ControlMessage {
    pub addr: String,
    pub args: Vec<ControlArg>,
}

/// A control message, as a value.
pub ghost struct MessageView {
    pub addr: Seq<char>,
    pub args: Seq<ArgView>,
}

impl View for ControlMessage {
    type V = MessageView;

    open spec fn view(&self) -> MessageView {
        MessageView { addr: self.addr@, args: self.args@.map_values(|arg: ControlArg| arg@) }
    }
}

/// Why a message changed nothing.
#[derive(Clone, Copy, Debug, PartialEq, Eq, Structural)]
pub enum Diagnostic {
    /// The argument is not of the type that the address takes.
    WrongPayload,
    /// A number that is no weight: below zero, above one, or no number.
    WeightOutOfRange,
    /// A name or an integer that encodes no blend mode.
    UnknownBlendMode,
    /// An integer that is no slot of a layer.
    SlotOutOfRange,
    /// The address ends in no field, or the arguments are not exactly one.
    Unprocessed,
}

impl Diagnostic {
    /// The family of this diagnostic. A value that is of the right type
    /// and names nothing is an addressing error; everything else is a
    /// fault of the message itself.
    pub open spec fn spec_kind(self) -> ErrorKind {
        match self {
            Diagnostic::UnknownBlendMode => ErrorKind::Addressing,
            Diagnostic::SlotOutOfRange => ErrorKind::Addressing,
            _ => ErrorKind::Protocol,
        }
    }

    /// The family of this diagnostic.
    pub fn kind(&self) -> (kind: ErrorKind)
        ensures
            kind == self.spec_kind(),
    {
        match self {
            Diagnostic::UnknownBlendMode => ErrorKind::Addressing,
            Diagnostic::SlotOutOfRange => ErrorKind::Addressing,
            _ => ErrorKind::Protocol,
        }
    }
}

/// What became of a message that was handed to a layer.
#[derive(Clone, Copy, Debug, PartialEq, Eq, Structural)]
pub enum Receipt {
    /// The message set this field.
    Applied(LayerField),
    /// The message was dropped, and the layer is as before.
    Dropped(Diagnostic),
}

} // verus!
