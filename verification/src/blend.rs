//! The closed set of blend modes and their two wire encodings.

use vstd::prelude::*;
use crate::error::ClipError;

verus! {

/// How a layer combines its active source with its backdrop.
#[derive(Clone, Copy, Debug, PartialEq, Eq, Structural)]
pub enum BlendMode {
    /// The source replaces the backdrop.
    Normal,
    /// A weighted average of backdrop and source.
    Mix,
    /// The product of backdrop and source.
    Multiply,
    /// The inverse of the product of the inverses.
    Screen,
    /// The backdrop plus the weighted source.
    Add,
    /// The backdrop minus the weighted source.
    Subtract,
    /// The source minus the weighted backdrop.
    Difference,
}

/// The mode that an integer encoding names, if any.
pub open spec fn mode_of_code(code: int) -> Option<BlendMode> {
    if code == 0 {
        Some(BlendMode::Normal)
    } else if code == 1 {
        Some(BlendMode::Mix)
    } else if code == 2 {
        Some(BlendMode::Multiply)
    } else if code == 3 {
        Some(BlendMode::Screen)
    } else if code == 4 {
        Some(BlendMode::Add)
    } else if code == 5 {
        Some(BlendMode::Subtract)
    } else if code == 6 {
        Some(BlendMode::Difference)
    } else {
        None
    }
}

/// The mode that a name names, if any. Names are lower case.
pub open spec fn mode_of_name(name: Seq<char>) -> Option<BlendMode> {
    if name == "normal"@ {
        Some(BlendMode::Normal)
    } else if name == "mix"@ {
        Some(BlendMode::Mix)
    } else if name == "multiply"@ {
        Some(BlendMode::Multiply)
    } else if name == "screen"@ {
        Some(BlendMode::Screen)
    } else if name == "add"@ {
        Some(BlendMode::Add)
    } else if name == "subtract"@ {
        Some(BlendMode::Subtract)
    } else if name == "difference"@ {
        Some(BlendMode::Difference)
    } else {
        None
    }
}

/// Whether two string slices hold the same characters.
pub(crate) fn str_equal(a: &str, b: &str) -> (same: bool)
    ensures
        same == (a@ == b@),
{
    let left: String = a.to_owned();
    let right: String = b.to_owned();
    left == right
}

impl BlendMode {
    /// The integer encoding of this mode, from 0 for `Normal` to 6 for `Difference`.
    pub open spec fn spec_code(self) -> int {
        match self {
            BlendMode::Normal => 0,
            BlendMode::Mix => 1,
            BlendMode::Multiply => 2,
            BlendMode::Screen => 3,
            BlendMode::Add => 4,
            BlendMode::Subtract => 5,
            BlendMode::Difference => 6,
        }
    }

    /// The name of this mode.
    pub open spec fn spec_name(self) -> Seq<char> {
        match self {
            BlendMode::Normal => "normal"@,
            BlendMode::Mix => "mix"@,
            BlendMode::Multiply => "multiply"@,
            BlendMode::Screen => "screen"@,
            BlendMode::Add => "add"@,
            BlendMode::Subtract => "subtract"@,
            BlendMode::Difference => "difference"@,
        }
    }

    /// The integer encoding of this mode.
    pub fn code(&self) -> (code: i32)
        ensures
            code == self.spec_code(),
            mode_of_code(code as int) == Some(*self),
    {
        match self {
            BlendMode::Normal => 0,
            BlendMode::Mix => 1,
            BlendMode::Multiply => 2,
            BlendMode::Screen => 3,
            BlendMode::Add => 4,
            BlendMode::Subtract => 5,
            BlendMode::Difference => 6,
        }
    }

    /// The name of this mode.
    pub fn name(&self) -> (name: &'static str)
        ensures
            name@ == self.spec_name(),
    {
        match self {
            BlendMode::Normal => "normal",
            BlendMode::Mix => "mix",
            BlendMode::Multiply => "multiply",
            BlendMode::Screen => "screen",
            BlendMode::Add => "add",
            BlendMode::Subtract => "subtract",
            BlendMode::Difference => "difference",
        }
    }

    /// Decodes a mode from its name. Any other string is refused.
    pub fn from_str(input: &str) -> (decoded: Result<BlendMode, ClipError>)
        ensures
            match mode_of_name(input@) {
                Some(mode) => decoded == Ok::<BlendMode, ClipError>(mode),
                None => decoded == Err::<BlendMode, ClipError>(ClipError::UnknownBlendMode),
            },
    {
        if str_equal(input, "normal") {
            Ok(BlendMode::Normal)
        } else if str_equal(input, "mix") {
            Ok(BlendMode::Mix)
        } else if str_equal(input, "multiply") {
            Ok(BlendMode::Multiply)
        } else if str_equal(input, "screen") {
            Ok(BlendMode::Screen)
        } else if str_equal(input, "add") {
            Ok(BlendMode::Add)
        } else if str_equal(input, "subtract") {
            Ok(BlendMode::Subtract)
        } else if str_equal(input, "difference") {
            Ok(BlendMode::Difference)
        } else {
            Err(ClipError::UnknownBlendMode)
        }
    }

    /// Decodes a mode from its integer encoding. Any other integer is refused.
    pub fn try_from(value: i32) -> (decoded: Result<BlendMode, ClipError>)
        ensures
            match mode_of_code(value as int) {
                Some(mode) => decoded == Ok::<BlendMode, ClipError>(mode),
                None => decoded == Err::<BlendMode, ClipError>(ClipError::UnknownBlendMode),
            },
    {
        match value {
            0 => Ok(BlendMode::Normal),
            1 => Ok(BlendMode::Mix),
            2 => Ok(BlendMode::Multiply),
            3 => Ok(BlendMode::Screen),
            4 => Ok(BlendMode::Add),
            5 => Ok(BlendMode::Subtract),
            6 => Ok(BlendMode::Difference),
            _ => Err(ClipError::UnknownBlendMode),
        }
    }
}

/// Decoding the integer encoding of a mode gives the mode back, and an
/// integer that decodes is the encoding of what it decodes to.
pub proof fn lemma_code_round_trip(mode: BlendMode, code: int)
    ensures
        mode_of_code(mode.spec_code()) == Some(mode),
        mode_of_code(code) == Some(mode) ==> code == mode.spec_code(),
        mode_of_code(code).is_none() <==> !(0 <= code <= 6),
{
}

/// Decoding the name of a mode gives the mode back, and a string that
/// decodes is the name of what it decodes to.
pub proof fn lemma_name_round_trip(mode: BlendMode, name: Seq<char>)
    ensures
        mode_of_name(mode.spec_name()) == Some(mode),
        mode_of_name(name) == Some(mode) ==> name == mode.spec_name(),
{
    reveal_strlit("normal");
    reveal_strlit("mix");
    reveal_strlit("multiply");
    reveal_strlit("screen");
    reveal_strlit("add");
    reveal_strlit("subtract");
    reveal_strlit("difference");
    assert("normal"@.len() == 6 && "normal"@[0] == 'n');
    assert("mix"@.len() == 3 && "mix"@[0] == 'm');
    assert("multiply"@.len() == 8 && "multiply"@[0] == 'm');
    assert("screen"@.len() == 6 && "screen"@[0] == 's');
    assert("add"@.len() == 3 && "add"@[0] == 'a');
    assert("subtract"@.len() == 8 && "subtract"@[0] == 's');
    assert("difference"@.len() == 10);
}

} // verus!
