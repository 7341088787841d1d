//! Small types that many messages share.
use crate::decimal::{digits, render_unsigned};
use vstd::prelude::*;
use vstd::std_specs::convert::FromSpecImpl;
use vstd::string::*;

verus! {

/// A truth value that travels as the number `1` or `0`.
#[derive(Debug, Clone, Copy)]
pub enum OneBotBool {
    True,
    False,
}

/// The text that rejects `code` as a truth value.
pub open spec fn invalid_flag(code: u8) -> Seq<char> {
    "invalid value: "@ + digits(code as nat) + ", need 0 or 1"@
}

impl OneBotBool {
    /// The truth value as a `bool`.
    pub open spec fn truth(self) -> bool {
        self is True
    }

    /// The number that stands for this truth value on the wire.
    pub open spec fn wire(self) -> u8 {
        if self is True {
            1
        } else {
            0
        }
    }

    /// The truth value that `code` stands for, or the text that rejects it.
    pub open spec fn of_wire(code: u8) -> Result<OneBotBool, Seq<char>> {
        if code == 0 {
            Ok(OneBotBool::False)
        } else if code == 1 {
            Ok(OneBotBool::True)
        } else {
            Err(invalid_flag(code))
        }
    }

    /// The truth value as a `bool`.
    pub fn as_bool(&self) -> (truth: bool)
        ensures
            truth == self.truth(),
    {
        match self {
            OneBotBool::True => true,
            OneBotBool::False => false,
        }
    }

    /// The number that stands for this truth value on the wire.
    pub fn to_wire(&self) -> (code: u8)
        ensures
            code == self.wire(),
    {
        match self {
            OneBotBool::True => 1,
            OneBotBool::False => 0,
        }
    }

    /// Reads a truth value from the number that stands for it on the wire.
    /// Only `0` and `1` stand for one.
    pub fn from_wire(code: u8) -> (read: Result<OneBotBool, String>)
        ensures
            match read {
                Ok(value) => OneBotBool::of_wire(code) == Ok::<OneBotBool, Seq<char>>(value),
                Err(text) => OneBotBool::of_wire(code) == Err::<OneBotBool, Seq<char>>(text@),
            },
    {
        if code == 0 {
            Ok(OneBotBool::False)
        } else if code == 1 {
            Ok(OneBotBool::True)
        } else {
            let mut text = String::from_str("invalid value: ");
            let number = render_unsigned(code as u64);
            text.append(number.as_str());
            text.append(", need 0 or 1");
            Err(text)
        }
    }
}

impl From<OneBotBool> for bool {
    fn from(value: OneBotBool) -> (truth: bool) {
        value.as_bool()
    }
}

impl FromSpecImpl<OneBotBool> for bool {
    open spec fn obeys_from_spec() -> bool {
        true
    }

    open spec fn from_spec(value: OneBotBool) -> bool {
        value.truth()
    }
}

impl From<bool> for OneBotBool {
    fn from(value: bool) -> (flag: OneBotBool) {
        if value {
            OneBotBool::True
        } else {
            OneBotBool::False
        }
    }
}

impl FromSpecImpl<bool> for OneBotBool {
    open spec fn obeys_from_spec() -> bool {
        true
    }

    open spec fn from_spec(value: bool) -> OneBotBool {
        if value {
            OneBotBool::True
        } else {
            OneBotBool::False
        }
    }
}

/// The sex that a profile states.
#[derive(Debug, Clone)]
pub enum Sex {
    Male,
    Female,
    Unknown,
}

/// The role of a member in a group.
#[derive(Debug, Clone)]
pub enum GroupRole {
    Owner,
    Admin,
    Member,
}

} // verus!
