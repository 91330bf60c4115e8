//! Beats, as they are reported over the network.

use vstd::prelude::*;
use vstd::string::StringExecFns;
use crate::address::{is_match, osc_match, pattern_matches};
use crate::message::{ControlMessage, MessageView};

verus! {

/// Whether a beat fell into the current frame, and how many there were.
#[derive(Clone, Copy, Debug, PartialEq, Eq, Structural)]
pub struct Beat {
    beat: bool,
    beat_counter: u64,
}

impl Beat {
    /// The state after `beat_counter` beats, the last of them in this frame
    /// or not.
    pub fn new(beat: bool, beat_counter: u64) -> (made: Beat)
        ensures
            made.spec_beat() == beat,
            made.spec_beat_counter() == beat_counter,
    {
        Beat { beat, beat_counter }
    }

    /// Whether a beat fell into the current frame.
    pub closed spec fn spec_beat(&self) -> bool {
        self.beat
    }

    /// How many beats there were.
    pub closed spec fn spec_beat_counter(&self) -> u64 {
        self.beat_counter
    }

    /// Whether a beat fell into the current frame.
    pub fn get_beat(&self) -> (beat: bool)
        ensures
            beat == self.spec_beat(),
    {
        self.beat
    }

    /// How many beats there were.
    pub fn get_beat_counter(&self) -> (count: u64)
        ensures
            count == self.spec_beat_counter(),
    {
        self.beat_counter
    }
}

/// Counts the beats.
#[derive(Clone, Copy, Debug, PartialEq, Eq, Structural)]
pub struct BeatCounter {
    pub count: u64,
}

/// Says that a beat fell, and which one it was.
#[derive(Clone, Copy, Debug, PartialEq, Eq, Structural)]
pub struct BeatEvent {
    pub count: u64,
}

/// Where the beats come in.
#[derive(Debug)]
pub struct OscBeatReceiverPlugin {
    /// The address that a beat is sent to.
    pub address: String,
}

impl Default for OscBeatReceiverPlugin {
    fn default() -> (plugin: OscBeatReceiverPlugin)
        ensures
            plugin.address@ == "/beat"@,
    {
        OscBeatReceiverPlugin { address: String::from_str("/beat") }
    }
}

/// Whether a message is a beat for the given address.
pub open spec fn is_beat(address: Seq<char>, message: MessageView) -> bool {
    osc_match(message.addr, address) == Some(true)
}

/// How many of the first `upto` messages are beats.
pub open spec fn beats_among(address: Seq<char>, messages: Seq<MessageView>, upto: nat) -> nat
    decreases upto,
{
    if upto == 0 {
        0
    } else {
        beats_among(address, messages, (upto - 1) as nat) + if is_beat(
            address,
            messages[upto - 1],
        ) {
            1nat
        } else {
            0nat
        }
    }
}

/// Counts the beats among the messages of one frame and says so once for
/// each: the events carry the counts that the counter went through.
pub fn osc_beat_receiver_system(
    beat_counter: &mut BeatCounter,
    plugin: &OscBeatReceiverPlugin,
    messages: &Vec<ControlMessage>,
) -> (events: Vec<BeatEvent>)
    requires
        old(beat_counter).count + messages@.len() <= u64::MAX,
    ensures
        events@.len() == beats_among(
            plugin.address@,
            messages@.map_values(|m: ControlMessage| m@),
            messages@.len(),
        ),
        final(beat_counter).count == old(beat_counter).count + events@.len(),
        forall|i: int|
            0 <= i < events@.len() ==> (#[trigger] events@[i]).count == old(beat_counter).count + i
                + 1,
{
    let ghost views: Seq<MessageView> = messages@.map_values(|m: ControlMessage| m@);
    let mut events: Vec<BeatEvent> = Vec::new();
    let n: usize = messages.len();
    let mut i: usize = 0;
    while i < n
        invariant
            i <= n,
            n == messages@.len(),
            views == messages@.map_values(|m: ControlMessage| m@),
            old(beat_counter).count + n <= u64::MAX,
            events@.len() == beats_among(plugin.address@, views, i as nat),
            events@.len() <= i,
            beat_counter.count == old(beat_counter).count + events@.len(),
            forall|k: int|
                0 <= k < events@.len() ==> (#[trigger] events@[k]).count == old(beat_counter).count
                    + k + 1,
        decreases n - i,
    {
        assert(views[i as int] == messages@[i as int]@);
        if is_match(pattern_matches(messages[i].addr.as_str(), plugin.address.as_str())) {
            beat_counter.count = beat_counter.count + 1;
            events.push(BeatEvent { count: beat_counter.count });
        }
        i = i + 1;
    }
    events
}

} // verus!
