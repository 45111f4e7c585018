//! MongoDB server constants.
use vstd::prelude::*;

use crate::errors::MemberStateParseError;

verus! {

/// Error code returned by MongoDB when the Replica Set is not initialised on the node.
pub const REPL_SET_NOT_INITIALISED: i32 = 94;

/// Possible states of a MongoDB replica set member.
///
/// Each state is bound to a fixed integer code; codes outside the table
/// (4 among them) are invalid and never decode.
#[derive(Clone, Copy, PartialEq, Eq, Structural, Debug)]
pub enum MemberState {
    Startup,
    Primary,
    Secondary,
    Recovering,
    Startup2,
    Unknown,
    Arbiter,
    Down,
    Rollback,
    Removed,
}

impl MemberState {
    /// The fixed integer code the server uses for this state.
    pub open spec fn spec_code(self) -> int {
        match self {
            MemberState::Startup => 0,
            MemberState::Primary => 1,
            MemberState::Secondary => 2,
            MemberState::Recovering => 3,
            MemberState::Startup2 => 5,
            MemberState::Unknown => 6,
            MemberState::Arbiter => 7,
            MemberState::Down => 8,
            MemberState::Rollback => 9,
            MemberState::Removed => 10,
        }
    }

    /// The state a code stands for, if the code is in the table.
    pub open spec fn spec_decode(code: int) -> Option<MemberState> {
        if code == 0 {
            Some(MemberState::Startup)
        } else if code == 1 {
            Some(MemberState::Primary)
        } else if code == 2 {
            Some(MemberState::Secondary)
        } else if code == 3 {
            Some(MemberState::Recovering)
        } else if code == 5 {
            Some(MemberState::Startup2)
        } else if code == 6 {
            Some(MemberState::Unknown)
        } else if code == 7 {
            Some(MemberState::Arbiter)
        } else if code == 8 {
            Some(MemberState::Down)
        } else if code == 9 {
            Some(MemberState::Rollback)
        } else if code == 10 {
            Some(MemberState::Removed)
        } else {
            None
        }
    }

    /// Encode this state as its integer code.
    pub fn code(self) -> (code: i32)
        ensures
            code == self.spec_code(),
    {
        match self {
            MemberState::Startup => 0,
            MemberState::Primary => 1,
            MemberState::Secondary => 2,
            MemberState::Recovering => 3,
            MemberState::Startup2 => 5,
            MemberState::Unknown => 6,
            MemberState::Arbiter => 7,
            MemberState::Down => 8,
            MemberState::Rollback => 9,
            MemberState::Removed => 10,
        }
    }

    /// Decode an integer code into a member state.
    ///
    /// Codes outside the fixed table fail with the offending code attached;
    /// callers must not guess a fallback value silently.
    pub fn decode(code: i32) -> (state: Result<MemberState, MemberStateParseError>)
        ensures
            match state {
                Ok(s) => MemberState::spec_decode(code as int) == Some(s),
                Err(e) => {
                    &&& MemberState::spec_decode(code as int) is None
                    &&& e == (MemberStateParseError { state: code })
                },
            },
    {
        match code {
            0 => Ok(MemberState::Startup),
            1 => Ok(MemberState::Primary),
            2 => Ok(MemberState::Secondary),
            3 => Ok(MemberState::Recovering),
            5 => Ok(MemberState::Startup2),
            6 => Ok(MemberState::Unknown),
            7 => Ok(MemberState::Arbiter),
            8 => Ok(MemberState::Down),
            9 => Ok(MemberState::Rollback),
            10 => Ok(MemberState::Removed),
            _ => Err(MemberStateParseError { state: code }),
        }
    }

    /// The symbolic name of this state, as the server prints it.
    pub open spec fn spec_name(self) -> Seq<char> {
        match self {
            MemberState::Arbiter => "ARBITER"@,
            MemberState::Down => "DOWN"@,
            MemberState::Primary => "PRIMARY"@,
            MemberState::Recovering => "RECOVERING"@,
            MemberState::Removed => "REMOVED"@,
            MemberState::Rollback => "ROLLBACK"@,
            MemberState::Secondary => "SECONDARY"@,
            MemberState::Startup => "STARTUP"@,
            MemberState::Startup2 => "STARTUP2"@,
            MemberState::Unknown => "UNKNOWN"@,
        }
    }

    /// Render the symbolic name of this state.
    pub fn name(self) -> (name: String)
        ensures
            name@ == self.spec_name(),
    {
        match self {
            MemberState::Arbiter => "ARBITER".to_owned(),
            MemberState::Down => "DOWN".to_owned(),
            MemberState::Primary => "PRIMARY".to_owned(),
            MemberState::Recovering => "RECOVERING".to_owned(),
            MemberState::Removed => "REMOVED".to_owned(),
            MemberState::Rollback => "ROLLBACK".to_owned(),
            MemberState::Secondary => "SECONDARY".to_owned(),
            MemberState::Startup => "STARTUP".to_owned(),
            MemberState::Startup2 => "STARTUP2".to_owned(),
            MemberState::Unknown => "UNKNOWN".to_owned(),
        }
    }
}

/// Law: over the whole code table, decode and encode are mutual inverses.
///
/// Every code in the table decodes to a state whose own code is that code;
/// every state's code decodes back to the same state; and a code decodes at
/// all exactly when it is one of the ten listed codes (0 to 10, except 4).
pub proof fn lemma_member_state_round_trip()
    ensures
        forall|code: int|
            (#[trigger] MemberState::spec_decode(code)) matches Some(s) ==> s.spec_code() == code,
        forall|s: MemberState| MemberState::spec_decode(#[trigger] s.spec_code()) == Some(s),
        forall|code: int|
            (#[trigger] MemberState::spec_decode(code)) is Some <==> (0 <= code <= 10 && code != 4),
{
}

} // verus!
