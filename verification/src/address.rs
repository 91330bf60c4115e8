//! The control address space: one address per field of each layer.
//!
//! A layer with index `n` answers at `/clip_layer/n/blend`,
//! `/clip_layer/n/blend_mode` and `/clip_layer/n/active_clip`. An inbound
//! message carries an address pattern in the sense of Open Sound Control;
//! whether a pattern matches an address is decided by the `rosc` crate.

use vstd::prelude::*;
use vstd::string::StringExecFns;
use vstd::string::StrSliceExecFns;
use rosc::address::Matcher;
use rosc::address::OscAddress;

verus! {

/// Whether `text` ends with `suffix`.
pub open spec fn ends_with(text: Seq<char>, suffix: Seq<char>) -> bool {
    suffix.len() <= text.len() && text.subrange(text.len() - suffix.len(), text.len() as int)
        == suffix
}

/// Whether `text` ends with `suffix`.
pub fn str_ends_with(text: &str, suffix: &str) -> (ends: bool)
    ensures
        ends == ends_with(text@, suffix@),
{
    let text_len: usize = text.unicode_len();
    let suffix_len: usize = suffix.unicode_len();
    if suffix_len > text_len {
        return false;
    }
    let start: usize = text_len - suffix_len;
    let mut i: usize = 0;
    while i < suffix_len
        invariant
            text_len == text@.len(),
            suffix_len == suffix@.len(),
            suffix_len <= text_len,
            start == text_len - suffix_len,
            i <= suffix_len,
            forall|k: int| 0 <= k < i ==> text@[start + k] == suffix@[k],
        decreases suffix_len - i,
    {
        if text.get_char(start + i) != suffix.get_char(i) {
            assert(text@.subrange(start as int, text_len as int)[i as int] != suffix@[i as int]);
            return false;
        }
        i = i + 1;
    }
    assert(text@.subrange(start as int, text_len as int) =~= suffix@);
    true
}

/// The character of a decimal digit.
pub open spec fn digit_char(d: int) -> char {
    if d == 0 {
        '0'
    } else if d == 1 {
        '1'
    } else if d == 2 {
        '2'
    } else if d == 3 {
        '3'
    } else if d == 4 {
        '4'
    } else if d == 5 {
        '5'
    } else if d == 6 {
        '6'
    } else if d == 7 {
        '7'
    } else if d == 8 {
        '8'
    } else {
        '9'
    }
}

/// A number in decimal, without leading zeros.
pub open spec fn decimal(n: nat) -> Seq<char>
    decreases n,
{
    if n < 10 {
        seq![digit_char(n as int)]
    } else {
        decimal(n / 10).push(digit_char((n % 10) as int))
    }
}

fn digit_str(d: u8) -> (text: &'static str)
    requires
        d < 10,
    ensures
        text@ == seq![digit_char(d as int)],
{
    proof {
        reveal_strlit("0");
        reveal_strlit("1");
        reveal_strlit("2");
        reveal_strlit("3");
        reveal_strlit("4");
        reveal_strlit("5");
        reveal_strlit("6");
        reveal_strlit("7");
        reveal_strlit("8");
        reveal_strlit("9");
    }
    let text: &'static str = match d {
        0 => "0",
        1 => "1",
        2 => "2",
        3 => "3",
        4 => "4",
        5 => "5",
        6 => "6",
        7 => "7",
        8 => "8",
        _ => "9",
    };
    assert(text@ =~= seq![digit_char(d as int)]);
    text
}

/// Appends a layer index in decimal to `text`.
fn append_decimal(text: &mut String, n: u8)
    ensures
        final(text)@ == old(text)@ + decimal(n as nat),
{
    reveal_with_fuel(decimal, 3);
    if n >= 100 {
        text.append(digit_str(n / 100));
        text.append(digit_str((n / 10) % 10));
        text.append(digit_str(n % 10));
        assert(final(text)@ =~= old(text)@ + decimal(n as nat));
    } else if n >= 10 {
        text.append(digit_str(n / 10));
        text.append(digit_str(n % 10));
        assert(final(text)@ =~= old(text)@ + decimal(n as nat));
    } else {
        text.append(digit_str(n));
    }
}

/// The fields of a layer that can be set from outside.
#[derive(Clone, Copy, Debug, PartialEq, Eq, Structural)]
pub enum LayerField {
    Blend,
    BlendMode,
    ActiveClip,
}

impl LayerField {
    /// The end of every address of this field.
    pub open spec fn spec_suffix(self) -> Seq<char> {
        match self {
            LayerField::Blend => "/blend"@,
            LayerField::BlendMode => "/blend_mode"@,
            LayerField::ActiveClip => "/active_clip"@,
        }
    }

    /// The end of every address of this field.
    pub fn suffix(&self) -> (text: &'static str)
        ensures
            text@ == self.spec_suffix(),
    {
        match self {
            LayerField::Blend => "/blend",
            LayerField::BlendMode => "/blend_mode",
            LayerField::ActiveClip => "/active_clip",
        }
    }
}

/// The address of a field of the layer with the given index.
pub open spec fn layer_address(layer: u8, field: LayerField) -> Seq<char> {
    "/clip_layer/"@ + decimal(layer as nat) + field.spec_suffix()
}

/// The address of a field of the layer with the given index.
pub fn layer_address_string(layer: u8, field: LayerField) -> (text: String)
    ensures
        text@ == layer_address(layer, field),
{
    let mut text: String = String::from_str("/clip_layer/");
    append_decimal(&mut text, layer);
    text.append(field.suffix());
    text
}

/// Whether an address pattern matches an address, as `rosc` decides it:
/// `None` where the pattern is no address pattern or the address is no
/// address, else whether the one matches the other.
pub uninterp spec fn osc_match(pattern: Seq<char>, address: Seq<char>) -> Option<bool>;

/// Calls `rosc::address::Matcher::match_address`, with the matcher made by
/// `Matcher::new` from `pattern` and the address by `OscAddress::new` from
/// `address`. The contract claims only that the outcome is a function of
/// the two strings: `None` where one of the two constructors refuses its
/// string, else what `match_address` returns.
#[verifier::external_body]
pub(crate) fn pattern_matches(pattern: &str, address: &str) -> (verdict: Option<bool>)
    ensures
        verdict == osc_match(pattern@, address@),
{
    match (Matcher::new(pattern), OscAddress::new(address.to_string())) {
        (Ok(matcher), Ok(target)) => Some(matcher.match_address(&target)),
        _ => None,
    }
}

/// Whether a verdict on a pattern and an address says that they match.
pub fn is_match(verdict: Option<bool>) -> (matched: bool)
    ensures
        matched == (verdict == Some(true)),
{
    match verdict {
        Some(matched) => matched,
        None => false,
    }
}

} // verus!
