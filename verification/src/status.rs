//! The states a submitted email moves through, as the service reports them.

use vstd::prelude::*;
use vstd::string::StringExecFns;

use crate::strutil::str_eq;

verus! {

/// The states the service reports for a send operation.
#[derive(Clone, Copy, Debug, PartialEq, Eq, Structural)]
pub enum EmailSendStatusType {
    Unknown,
    Canceled,
    Failed,
    NotStarted,
    Running,
    Succeeded,
}

/// A status value exactly as a status response carries it.
#[derive(Clone, Copy, Debug, PartialEq, Eq, Structural)]
pub struct EmailSendStatus(pub EmailSendStatusType);

impl EmailSendStatus {
    /// The raw state inside the response value.
    pub fn to_type(self) -> (r: EmailSendStatusType)
        ensures
            r == self.0,
    {
        self.0
    }
}

/// A state is terminal when no further transition can follow it.
pub open spec fn spec_is_terminal(s: EmailSendStatusType) -> bool {
    s is Succeeded || s is Failed || s is Canceled || s is Unknown
}

/// The name the service uses for each state on the wire.
pub open spec fn spec_status_name(s: EmailSendStatusType) -> Seq<char> {
    match s {
        EmailSendStatusType::Unknown => "Unknown"@,
        EmailSendStatusType::Canceled => "Canceled"@,
        EmailSendStatusType::Failed => "Failed"@,
        EmailSendStatusType::NotStarted => "NotStarted"@,
        EmailSendStatusType::Running => "Running"@,
        EmailSendStatusType::Succeeded => "Succeeded"@,
    }
}

/// The state a given wire name stands for; unrecognized names mean `Unknown`.
pub open spec fn spec_status_of_name(s: Seq<char>) -> EmailSendStatusType {
    if s == "Canceled"@ {
        EmailSendStatusType::Canceled
    } else if s == "Failed"@ {
        EmailSendStatusType::Failed
    } else if s == "NotStarted"@ {
        EmailSendStatusType::NotStarted
    } else if s == "Running"@ {
        EmailSendStatusType::Running
    } else if s == "Succeeded"@ {
        EmailSendStatusType::Succeeded
    } else {
        EmailSendStatusType::Unknown
    }
}

/// Round trip: each state's wire name parses back to exactly that state.
pub proof fn lemma_status_name_round_trip(s: EmailSendStatusType)
    ensures
        spec_status_of_name(spec_status_name(s)) == s,
{
    reveal_strlit("Unknown");
    reveal_strlit("Canceled");
    reveal_strlit("Failed");
    reveal_strlit("NotStarted");
    reveal_strlit("Running");
    reveal_strlit("Succeeded");
    assert("Unknown"@.len() == 7);
    assert("Canceled"@.len() == 8);
    assert("Failed"@.len() == 6);
    assert("NotStarted"@.len() == 10);
    assert("Running"@.len() == 7);
    assert("Succeeded"@.len() == 9);
    // the one pair of equal length differs in its first character
    assert("Unknown"@[0] != "Running"@[0]);
}

impl EmailSendStatusType {
    /// Whether the state is terminal.
    pub fn is_terminal(&self) -> (r: bool)
        ensures
            r == spec_is_terminal(*self),
    {
        match self {
            EmailSendStatusType::Succeeded => true,
            EmailSendStatusType::Failed => true,
            EmailSendStatusType::Canceled => true,
            EmailSendStatusType::Unknown => true,
            EmailSendStatusType::NotStarted => false,
            EmailSendStatusType::Running => false,
        }
    }

    /// The wire name of the state.
    pub fn name(&self) -> (r: String)
        ensures
            r@ == spec_status_name(*self),
    {
        match self {
            EmailSendStatusType::Unknown => String::from_str("Unknown"),
            EmailSendStatusType::Canceled => String::from_str("Canceled"),
            EmailSendStatusType::Failed => String::from_str("Failed"),
            EmailSendStatusType::NotStarted => String::from_str("NotStarted"),
            EmailSendStatusType::Running => String::from_str("Running"),
            EmailSendStatusType::Succeeded => String::from_str("Succeeded"),
        }
    }

    /// Parse a wire name back into a state; anything unrecognized is
    /// `Unknown`.
    pub fn from_name(s: &str) -> (r: Self)
        ensures
            r == spec_status_of_name(s@),
    {
        if str_eq(s, "Canceled") {
            EmailSendStatusType::Canceled
        } else if str_eq(s, "Failed") {
            EmailSendStatusType::Failed
        } else if str_eq(s, "NotStarted") {
            EmailSendStatusType::NotStarted
        } else if str_eq(s, "Running") {
            EmailSendStatusType::Running
        } else if str_eq(s, "Succeeded") {
            EmailSendStatusType::Succeeded
        } else {
            EmailSendStatusType::Unknown
        }
    }
}

} // verus!
