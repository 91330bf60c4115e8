//! Dispatch of control messages to the layers.
//!
//! Messages arrive from the network at any time and wait in a queue. Once
//! per tick the queue is emptied: every message is handed, in order of
//! arrival, to every layer that answers to its address pattern.

use vstd::prelude::*;
use crate::bundles::ClipLayerBundle;
use crate::clip_layer::{answers, receipt_of, received, LayerView};
use crate::message::{ControlMessage, MessageView, Receipt};

verus! {

/// A layer after a message was routed past it: the layer takes the message
/// if it answers to the address pattern, and is as before if not.
pub open spec fn dispatched(layer: LayerView, message: MessageView) -> LayerView {
    if answers(layer.layer, message.addr) {
        received(layer, message)
    } else {
        layer
    }
}

/// A layer after a run of messages was routed past it, first to last.
pub open spec fn dispatched_all(layer: LayerView, messages: Seq<MessageView>) -> LayerView
    decreases messages.len(),
{
    if messages.len() == 0 {
        layer
    } else {
        dispatched(dispatched_all(layer, messages.drop_last()), messages.last())
    }
}

/// What a layer says of a message that was routed past it: its receipt if
/// it answers to the address pattern, nothing if not.
pub open spec fn answer_of(layer: LayerView, message: MessageView) -> Option<Receipt> {
    if answers(layer.layer, message.addr) {
        Some(receipt_of(message))
    } else {
        None
    }
}

/// Routes one message past every layer and collects what each says of it.
/// Frame buffers and compositing stages are not touched.
pub fn dispatch_message(layers: &mut Vec<ClipLayerBundle>, message: &ControlMessage) -> (receipts:
    Vec<Option<Receipt>>)
    ensures
        final(layers)@.len() == old(layers)@.len(),
        receipts@.len() == old(layers)@.len(),
        forall|i: int|
            0 <= i < old(layers)@.len() ==> {
                &&& (#[trigger] final(layers)@[i])@.layer == dispatched(
                    old(layers)@[i]@.layer,
                    message@,
                )
                &&& final(layers)@[i]@.render_target == old(layers)@[i]@.render_target
                &&& final(layers)@[i]@.material == old(layers)@[i]@.material
            },
        forall|i: int|
            0 <= i < old(layers)@.len() ==> #[trigger] receipts@[i] == answer_of(
                old(layers)@[i]@.layer,
                message@,
            ),
{
    let n: usize = layers.len();
    let mut receipts: Vec<Option<Receipt>> = Vec::new();
    let mut i: usize = 0;
    while i < n
        invariant
            i <= n,
            n == layers@.len(),
            n == old(layers)@.len(),
            receipts@.len() == i,
            forall|k: int| i <= k < n ==> layers@[k] == old(layers)@[k],
            forall|k: int|
                0 <= k < i ==> {
                    &&& (#[trigger] layers@[k])@.layer == dispatched(
                        old(layers)@[k]@.layer,
                        message@,
                    )
                    &&& layers@[k]@.render_target == old(layers)@[k]@.render_target
                    &&& layers@[k]@.material == old(layers)@[k]@.material
                },
            forall|k: int|
                0 <= k < i ==> #[trigger] receipts@[k] == answer_of(
                    old(layers)@[k]@.layer,
                    message@,
                ),
        decreases n - i,
    {
        let receipt: Option<Receipt> = layers[i].clip_layer.match_message(message);
        receipts.push(receipt);
        i = i + 1;
    }
    receipts
}

/// The messages that arrived since the queue was last emptied, in order of
/// arrival.
#[derive(Debug)]
pub struct ControlQueue {
    pending: Vec<ControlMessage>,
}

impl View for ControlQueue {
    type V = Seq<MessageView>;

    closed spec fn view(&self) -> Seq<MessageView> {
        self.pending@.map_values(|message: ControlMessage| message@)
    }
}

impl ControlQueue {
    /// An empty queue.
    pub fn new() -> (queue: ControlQueue)
        ensures
            queue@ == Seq::<MessageView>::empty(),
    {
        let queue: ControlQueue = ControlQueue { pending: Vec::new() };
        assert(queue@ =~= Seq::<MessageView>::empty());
        queue
    }

    /// Puts a message at the end of the queue.
    pub fn push(&mut self, message: ControlMessage)
        ensures
            final(self)@ == old(self)@.push(message@),
    {
        self.pending.push(message);
        assert(final(self)@ =~= old(self)@.push(message@));
    }

    /// How many messages wait.
    pub fn len(&self) -> (n: usize)
        ensures
            n == self@.len(),
    {
        self.pending.len()
    }
}

/// Empties the queue into the layers: every message that waits is routed
/// past every layer, first come first served, and none of them waits any
/// longer. Frame buffers and compositing stages are not touched.
pub fn apply_control_messages(layers: &mut Vec<ClipLayerBundle>, queue: &mut ControlQueue)
    ensures
        final(queue)@ == Seq::<MessageView>::empty(),
        final(layers)@.len() == old(layers)@.len(),
        forall|i: int|
            0 <= i < old(layers)@.len() ==> {
                &&& (#[trigger] final(layers)@[i])@.layer == dispatched_all(
                    old(layers)@[i]@.layer,
                    old(queue)@,
                )
                &&& final(layers)@[i]@.render_target == old(layers)@[i]@.render_target
                &&& final(layers)@[i]@.material == old(layers)@[i]@.material
            },
{
    let count: usize = queue.pending.len();
    let ghost messages: Seq<MessageView> = queue@;
    let mut k: usize = 0;
    while k < count
        invariant
            k <= count,
            count == queue.pending@.len(),
            queue@ == messages,
            messages == old(queue)@,
            layers@.len() == old(layers)@.len(),
            forall|i: int|
                0 <= i < old(layers)@.len() ==> {
                    &&& (#[trigger] layers@[i])@.layer == dispatched_all(
                        old(layers)@[i]@.layer,
                        messages.take(k as int),
                    )
                    &&& layers@[i]@.render_target == old(layers)@[i]@.render_target
                    &&& layers@[i]@.material == old(layers)@[i]@.material
                },
        decreases count - k,
    {
        let ghost before: Seq<ClipLayerBundle> = layers@;
        let message: &ControlMessage = &queue.pending[k];
        assert(message@ == messages[k as int]);
        let _receipts: Vec<Option<Receipt>> = dispatch_message(layers, message);
        proof {
            let longer: Seq<MessageView> = messages.take(k as int + 1);
            assert(longer.drop_last() =~= messages.take(k as int));
            assert(longer.last() == messages[k as int]);
        }
        k = k + 1;
    }
    assert(messages.take(count as int) =~= messages);
    queue.pending.clear();
    assert(final(queue)@ =~= Seq::<MessageView>::empty());
}

/// A message that no layer answers to changes no layer, and a queue
/// without messages changes nothing.
pub proof fn lemma_unanswered_changes_nothing(layer: LayerView, message: MessageView)
    ensures
        !answers(layer.layer, message.addr) ==> dispatched(layer, message) == layer,
        dispatched_all(layer, Seq::<MessageView>::empty()) == layer,
        dispatched_all(layer, seq![message]) == dispatched(layer, message),
{
    let one: Seq<MessageView> = seq![message];
    assert(one.drop_last() =~= Seq::<MessageView>::empty());
    assert(one.last() == message);
    reveal_with_fuel(dispatched_all, 3);
}

/// No message changes the index of a layer.
pub proof fn lemma_dispatch_keeps_index(layer: LayerView, messages: Seq<MessageView>)
    ensures
        dispatched_all(layer, messages).layer == layer.layer,
    decreases messages.len(),
{
    if messages.len() > 0 {
        lemma_dispatch_keeps_index(layer, messages.drop_last());
    }
}

} // verus!
