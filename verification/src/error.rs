//! Error taxonomy of the post-processing engine.

use vstd::prelude::*;

use crate::text::{dec_digits, u64_to_dec};

verus! {

/// Typed failure value returned by every fallible query of the engine.
///
/// `Io` carries the message of an underlying container-read failure that an
/// unverified caller hands in; the engine itself never performs I/O.
#[derive(Debug, Clone, PartialEq, Eq)]
pub enum ApiError {
    /// An export index exceeded the number of available steps: `(index, bound)`.
    OutOfRange(usize, usize),
    /// A requested property name is not in the discovered set.
    KeyError(String),
    /// An optional record series (gas phase, mass-transfer rate, tallies)
    /// was requested but is absent.
    RecordsError(String),
    /// Array dimensions or weight-vector length do not match.
    ShapeError,
    /// An underlying container read failed; the message is the cause.
    Io(String),
    /// Catch-all for aggregate failures not otherwise classified.
    Default(String),
}

/// The display text of each failure.
pub open spec fn message_spec(e: &ApiError) -> Seq<char> {
    match e {
        ApiError::OutOfRange(i, b) => "Index "@ + dec_digits(*i as int) + " is Out of Range "@
            + dec_digits(*b as int),
        ApiError::KeyError(k) => "Property "@ + k@ + " does not exist in the selected dataset"@,
        ApiError::RecordsError(n) => "Records quantity '"@ + n@
            + "' does not exist in the selected dataset"@,
        ApiError::ShapeError => "Datasetd shape mismatch"@,
        ApiError::Io(m) => "Internal I/O error: "@ + m@,
        ApiError::Default(m) => "Error: "@ + m@,
    }
}

impl ApiError {
    /// Renders the failure as its display text.
    pub fn message(&self) -> (r: String)
        ensures
            r@ == message_spec(self),
    {
        match self {
            ApiError::OutOfRange(i, b) => {
                let mut s = String::from_str("Index ");
                s.append(u64_to_dec(*i as u64).as_str());
                s.append(" is Out of Range ");
                s.append(u64_to_dec(*b as u64).as_str());
                proof {
                    assert(s@ =~= message_spec(self));
                }
                s
            },
            ApiError::KeyError(k) => {
                let mut s = String::from_str("Property ");
                s.append(k.as_str());
                s.append(" does not exist in the selected dataset");
                proof {
                    assert(s@ =~= message_spec(self));
                }
                s
            },
            ApiError::RecordsError(n) => {
                let mut s = String::from_str("Records quantity '");
                s.append(n.as_str());
                s.append("' does not exist in the selected dataset");
                proof {
                    assert(s@ =~= message_spec(self));
                }
                s
            },
            ApiError::ShapeError => String::from_str("Datasetd shape mismatch"),
            ApiError::Io(m) => {
                let mut s = String::from_str("Internal I/O error: ");
                s.append(m.as_str());
                proof {
                    assert(s@ =~= message_spec(self));
                }
                s
            },
            ApiError::Default(m) => {
                let mut s = String::from_str("Error: ");
                s.append(m.as_str());
                proof {
                    assert(s@ =~= message_spec(self));
                }
                s
            },
        }
    }
}

} // verus!
