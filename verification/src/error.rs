//! The failures a conversion request can end in, and their display messages.

use vstd::prelude::*;

verus! {

use crate::units::{spec_symbol, Unit};

/// Why a conversion request was rejected.
#[derive(Debug)]
pub enum Error {
    /// Both units parsed, but the ordered pair has no direct conversion.
    IrreconcilableUnits { original_unit: Unit, target_unit: Unit },
    /// A unit token matched no alias.
    UnrecognizedUnit { unit: String },
    /// The request line had fewer than four tokens, or its value token was
    /// not a numeric literal.
    MalformedRequest,
}

impl Error {
    /// The human-readable message for this failure.
    pub open spec fn spec_message(&self) -> Seq<char> {
        match self {
            Error::IrreconcilableUnits { original_unit, target_unit } => "Units do not convert: `"@
                + spec_symbol(*original_unit) + "`\u{2260} `"@ + spec_symbol(*target_unit) + "`"@,
            Error::UnrecognizedUnit { unit } => "Unrecognized unit: "@ + unit@,
            Error::MalformedRequest => "Malformed conversion request"@,
        }
    }

    /// Renders the message this failure is reported with.
    pub fn message(&self) -> (r: String)
        ensures
            r@ == self.spec_message(),
    {
        match self {
            Error::IrreconcilableUnits { original_unit, target_unit } => {
                let mut m = String::from_str("Units do not convert: `");
                let from_symbol = original_unit.symbol();
                m.append(from_symbol.as_str());
                m.append("`\u{2260} `");
                let to_symbol = target_unit.symbol();
                m.append(to_symbol.as_str());
                m.append("`");
                assert(m@ =~= self.spec_message());
                m
            },
            Error::UnrecognizedUnit { unit } => {
                let mut m = String::from_str("Unrecognized unit: ");
                m.append(unit.as_str());
                assert(m@ =~= self.spec_message());
                m
            },
            Error::MalformedRequest => String::from_str("Malformed conversion request"),
        }
    }
}

} // verus!
