use vstd::prelude::*;

use crate::attributes::{AttributeError, AttributeField, TryFromChar};

verus! {

/// How a volume group is shared between nodes.
#[derive(Clone, Copy, Debug, PartialEq, Eq, Structural)]
pub enum VolumeGroupAccessMode {
    SingleNode,
    Shared,
    /// The volume group is shared with other nodes in the cluster.
    Clustered,
}

impl TryFromChar for VolumeGroupAccessMode {
    open spec fn spec_field() -> AttributeField {
        AttributeField::AccessMode
    }

    open spec fn spec_from_char(c: char) -> Option<Self> {
        match c {
            '-' => Some(VolumeGroupAccessMode::SingleNode),
            's' => Some(VolumeGroupAccessMode::Shared),
            'c' => Some(VolumeGroupAccessMode::Clustered),
            _ => None,
        }
    }

    fn try_from_char(c: char) -> (r: Result<Self, AttributeError>) {
        match c {
            '-' => Ok(VolumeGroupAccessMode::SingleNode),
            's' => Ok(VolumeGroupAccessMode::Shared),
            'c' => Ok(VolumeGroupAccessMode::Clustered),
            _ => Err(AttributeError::Invalid { field: AttributeField::AccessMode, flag: c }),
        }
    }
}

} // verus!
