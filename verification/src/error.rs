//! The one error type of the library: a stable code, the component that
//! raised it, what was expected, what was observed, and what to do about it.

use vstd::prelude::*;
use vstd::string::*;
use crate::text::text;
use crate::types::{ErrorPayload, ERROR_SCHEMA_VERSION};

verus! {

/// The kinds of failure. Each has a code for machines and a process exit
/// status; neither ever changes.
#[derive(Debug, Clone, Copy, PartialEq, Eq, Structural)]
pub enum ErrorCode {
    InvalidTargetDisk,
    MissingTool,
    PlanGeneration,
    MissingConfirmation,
    PartitionApplyFailed,
    FormatFailed,
    MountFailed,
    HandoffFailed,
    JsonSerialize,
    NotImplemented,
    NotRoot,
    Internal,
}

impl ErrorCode {
    /// The kind's place in the list, counted from one.
    pub open spec fn number(self) -> u8 {
        match self {
            ErrorCode::InvalidTargetDisk => 1,
            ErrorCode::MissingTool => 2,
            ErrorCode::PlanGeneration => 3,
            ErrorCode::MissingConfirmation => 4,
            ErrorCode::PartitionApplyFailed => 5,
            ErrorCode::FormatFailed => 6,
            ErrorCode::MountFailed => 7,
            ErrorCode::HandoffFailed => 8,
            ErrorCode::JsonSerialize => 9,
            ErrorCode::NotImplemented => 10,
            ErrorCode::NotRoot => 11,
            ErrorCode::Internal => 12,
        }
    }

    /// The code's text: `E` and the number in three digits.
    pub open spec fn label(self) -> Seq<char> {
        match self {
            ErrorCode::InvalidTargetDisk => "E001"@,
            ErrorCode::MissingTool => "E002"@,
            ErrorCode::PlanGeneration => "E003"@,
            ErrorCode::MissingConfirmation => "E004"@,
            ErrorCode::PartitionApplyFailed => "E005"@,
            ErrorCode::FormatFailed => "E006"@,
            ErrorCode::MountFailed => "E007"@,
            ErrorCode::HandoffFailed => "E008"@,
            ErrorCode::JsonSerialize => "E009"@,
            ErrorCode::NotImplemented => "E010"@,
            ErrorCode::NotRoot => "E011"@,
            ErrorCode::Internal => "E012"@,
        }
    }

    /// The code's text.
    pub fn code(&self) -> (r: &'static str)
        ensures
            r@ == self.label(),
    {
        match self {
            ErrorCode::InvalidTargetDisk => "E001",
            ErrorCode::MissingTool => "E002",
            ErrorCode::PlanGeneration => "E003",
            ErrorCode::MissingConfirmation => "E004",
            ErrorCode::PartitionApplyFailed => "E005",
            ErrorCode::FormatFailed => "E006",
            ErrorCode::MountFailed => "E007",
            ErrorCode::HandoffFailed => "E008",
            ErrorCode::JsonSerialize => "E009",
            ErrorCode::NotImplemented => "E010",
            ErrorCode::NotRoot => "E011",
            ErrorCode::Internal => "E012",
        }
    }

    /// The exit status of a process that ends with this failure.
    pub fn exit_code(&self) -> (r: u8)
        ensures
            r == self.number(),
    {
        match self {
            ErrorCode::InvalidTargetDisk => 1,
            ErrorCode::MissingTool => 2,
            ErrorCode::PlanGeneration => 3,
            ErrorCode::MissingConfirmation => 4,
            ErrorCode::PartitionApplyFailed => 5,
            ErrorCode::FormatFailed => 6,
            ErrorCode::MountFailed => 7,
            ErrorCode::HandoffFailed => 8,
            ErrorCode::JsonSerialize => 9,
            ErrorCode::NotImplemented => 10,
            ErrorCode::NotRoot => 11,
            ErrorCode::Internal => 12,
        }
    }

    /// The code's text as an owned value.
    pub fn to_text(&self) -> (r: String)
        ensures
            r@ == self.label(),
    {
        text(self.code())
    }
}

/// The label is `E` followed by the number written in three digits.
pub proof fn lemma_label_shows_number(code: ErrorCode)
    ensures
        code.label() == seq!['E', crate::text::digit_char((code.number() / 100) as int),
            crate::text::digit_char(((code.number() / 10) % 10) as int),
            crate::text::digit_char((code.number() % 10) as int)],
        1 <= code.number() <= 12,
{
    reveal_strlit("E001");
    reveal_strlit("E002");
    reveal_strlit("E003");
    reveal_strlit("E004");
    reveal_strlit("E005");
    reveal_strlit("E006");
    reveal_strlit("E007");
    reveal_strlit("E008");
    reveal_strlit("E009");
    reveal_strlit("E010");
    reveal_strlit("E011");
    reveal_strlit("E012");
    let shown = seq!['E', crate::text::digit_char((code.number() / 100) as int),
        crate::text::digit_char(((code.number() / 10) % 10) as int),
        crate::text::digit_char((code.number() % 10) as int)];
    assert(code.label() =~= shown);
}

/// Two kinds with the same label are the same kind.
pub proof fn lemma_labels_distinct(a: ErrorCode, b: ErrorCode)
    requires
        a.label() == b.label(),
    ensures
        a == b,
{
    lemma_label_shows_number(a);
    lemma_label_shows_number(b);
    let x = a.label();
    let y = b.label();
    assert(x[2] == y[2]);
    assert(x[3] == y[3]);
}

/// A failure, with everything a person or a machine needs to act on it.
#[derive(Debug)]
pub struct RecpartError {
    pub code: ErrorCode,
    pub component: String,
    pub expectation: String,
    pub observed: String,
    pub remediation: String,
}

/// A failure, with its texts as character sequences.
pub struct RecpartErrorModel {
    pub code: ErrorCode,
    pub component: Seq<char>,
    pub expectation: Seq<char>,
    pub observed: Seq<char>,
    pub remediation: Seq<char>,
}

impl View for RecpartError {
    type V = RecpartErrorModel;

    open spec fn view(&self) -> RecpartErrorModel {
        RecpartErrorModel {
            code: self.code,
            component: self.component@,
            expectation: self.expectation@,
            observed: self.observed@,
            remediation: self.remediation@,
        }
    }
}

impl Clone for RecpartError {
    fn clone(&self) -> (r: Self)
        ensures
            r@ == self@,
    {
        RecpartError {
            code: self.code,
            component: self.component.clone(),
            expectation: self.expectation.clone(),
            observed: self.observed.clone(),
            remediation: self.remediation.clone(),
        }
    }
}

impl RecpartErrorModel {
    /// The error as one line of text.
    pub open spec fn message(self) -> Seq<char> {
        self.code.label() + ": ["@ + self.component + "] expected "@ + self.expectation
            + ", observed "@ + self.observed + ". remediation: "@ + self.remediation
    }

    /// The error as it is handed to machines.
    pub open spec fn payload(self) -> crate::types::ErrorPayloadModel {
        crate::types::ErrorPayloadModel {
            schema_version: ERROR_SCHEMA_VERSION,
            code: self.code.label(),
            component: self.component,
            expectation: self.expectation,
            observed: self.observed,
            remediation: self.remediation,
        }
    }
}

impl RecpartError {
    /// A failure made of its five parts.
    pub fn new(
        code: ErrorCode,
        component: &str,
        expectation: &str,
        observed: &str,
        remediation: &str,
    ) -> (r: Self)
        ensures
            r@ == (RecpartErrorModel {
                code,
                component: component@,
                expectation: expectation@,
                observed: observed@,
                remediation: remediation@,
            }),
    {
        RecpartError {
            code,
            component: text(component),
            expectation: text(expectation),
            observed: text(observed),
            remediation: text(remediation),
        }
    }

    /// The failure as it is handed to machines.
    pub fn payload(&self) -> (r: ErrorPayload)
        ensures
            r@ == self@.payload(),
    {
        ErrorPayload {
            schema_version: ERROR_SCHEMA_VERSION,
            code: self.code.to_text(),
            component: self.component.clone(),
            expectation: self.expectation.clone(),
            observed: self.observed.clone(),
            remediation: self.remediation.clone(),
        }
    }

    /// The error as one line of text.
    pub fn to_text(&self) -> (r: String)
        ensures
            r@ == self@.message(),
    {
        let mut out = self.code.to_text();
        out.append(": [");
        out.append(self.component.as_str());
        out.append("] expected ");
        out.append(self.expectation.as_str());
        out.append(", observed ");
        out.append(self.observed.as_str());
        out.append(". remediation: ");
        out.append(self.remediation.as_str());
        out
    }
}

/// The failure of a value that could not be written as JSON.
pub open spec fn serialize_error(reason: Seq<char>) -> RecpartErrorModel {
    RecpartErrorModel {
        code: ErrorCode::JsonSerialize,
        component: "json"@,
        expectation: "value serializes as pretty JSON"@,
        observed: reason,
        remediation: "Inspect serialization types and schema constraints."@,
    }
}

/// The failure of a value that could not be written as JSON.
pub fn serialize_failure(reason: &str) -> (r: RecpartError)
    ensures
        r@ == serialize_error(reason@),
{
    RecpartError::new(
        ErrorCode::JsonSerialize,
        "json",
        "value serializes as pretty JSON",
        reason,
        "Inspect serialization types and schema constraints.",
    )
}

} // verus!
