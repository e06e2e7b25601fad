use vstd::prelude::*;

use crate::attributes::{AttributeError, AttributeField, TryFromChar};

verus! {

/// Whether a logical volume's device is open.
#[derive(Clone, Copy, Debug, PartialEq, Eq, Structural)]
pub enum LVStatus {
    Closed,
    Open,
    Unknown,
}

impl TryFromChar for LVStatus {
    open spec fn spec_field() -> AttributeField {
        AttributeField::Status
    }

    open spec fn spec_from_char(c: char) -> Option<Self> {
        match c {
            '-' => Some(LVStatus::Closed),
            'o' => Some(LVStatus::Open),
            'X' => Some(LVStatus::Unknown),
            _ => None,
        }
    }

    fn try_from_char(c: char) -> (r: Result<Self, AttributeError>) {
        match c {
            '-' => Ok(LVStatus::Closed),
            'o' => Ok(LVStatus::Open),
            'X' => Ok(LVStatus::Unknown),
            _ => Err(AttributeError::Invalid { field: AttributeField::Status, flag: c }),
        }
    }
}

} // verus!
