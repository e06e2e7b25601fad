use vstd::prelude::*;

use crate::attributes::{AttributeError, AttributeField, TryFromChar};

verus! {

/// The state of a logical volume.
#[derive(Clone, Copy, Debug, PartialEq, Eq, Structural)]
pub enum LVState {
    Unknown,
    Inactive,
    Active,
    Historical,
    Suspended,
    InvalidSnapshot { suspended: bool },
    SnapshotMergeFailed { suspended: bool },
    DevicePresentWithoutTables,
    DevicePresentWithInactiveTables,
    ThinPoolCheckNeeded { suspended: bool },
}

impl TryFromChar for LVState {
    open spec fn spec_field() -> AttributeField {
        AttributeField::State
    }

    open spec fn spec_from_char(c: char) -> Option<Self> {
        match c {
            '-' => Some(LVState::Inactive),
            'a' => Some(LVState::Active),
            'h' => Some(LVState::Historical),
            's' => Some(LVState::Suspended),
            'I' => Some(LVState::InvalidSnapshot { suspended: false }),
            'S' => Some(LVState::InvalidSnapshot { suspended: true }),
            'm' => Some(LVState::SnapshotMergeFailed { suspended: false }),
            'M' => Some(LVState::SnapshotMergeFailed { suspended: true }),
            'd' => Some(LVState::DevicePresentWithoutTables),
            'i' => Some(LVState::DevicePresentWithInactiveTables),
            'c' => Some(LVState::ThinPoolCheckNeeded { suspended: false }),
            'C' => Some(LVState::ThinPoolCheckNeeded { suspended: true }),
            'X' => Some(LVState::Unknown),
            _ => None,
        }
    }

    fn try_from_char(c: char) -> (r: Result<Self, AttributeError>) {
        match c {
            '-' => Ok(LVState::Inactive),
            'a' => Ok(LVState::Active),
            'h' => Ok(LVState::Historical),
            's' => Ok(LVState::Suspended),
            'I' => Ok(LVState::InvalidSnapshot { suspended: false }),
            'S' => Ok(LVState::InvalidSnapshot { suspended: true }),
            'm' => Ok(LVState::SnapshotMergeFailed { suspended: false }),
            'M' => Ok(LVState::SnapshotMergeFailed { suspended: true }),
            'd' => Ok(LVState::DevicePresentWithoutTables),
            'i' => Ok(LVState::DevicePresentWithInactiveTables),
            'c' => Ok(LVState::ThinPoolCheckNeeded { suspended: false }),
            'C' => Ok(LVState::ThinPoolCheckNeeded { suspended: true }),
            'X' => Ok(LVState::Unknown),
            _ => Err(AttributeError::Invalid { field: AttributeField::State, flag: c }),
        }
    }
}

} // verus!
