use vstd::prelude::*;

use crate::attributes::{AttributeError, AttributeField, TryFromChar};

verus! {

/// The kind of a logical volume.
#[derive(Clone, Copy, Debug, PartialEq, Eq, Structural)]
pub enum LVVolumeType {
    Simple,
    Cache,
    Mirrored { initial_sync: bool },
    Origin { merging_snapshot: bool },
    Raid { initial_sync: bool },
    Snapshot { merging: bool },
    PVMove,
    Virtual,
    MirrorOrRaid { out_of_sync: bool },
    MirrorLog,
    UnderConversion,
    ThinVolume,
    ThinPool { data: bool },
    VDOPool { data: bool },
    /// RAID metadata, pool metadata or a pool metadata spare.
    RaidOrPoolMetadataOrPoolMetadataSpare,
}

impl TryFromChar for LVVolumeType {
    open spec fn spec_field() -> AttributeField {
        AttributeField::VolumeType
    }

    open spec fn spec_from_char(c: char) -> Option<Self> {
        match c {
            '-' => Some(LVVolumeType::Simple),
            'C' => Some(LVVolumeType::Cache),
            'm' => Some(LVVolumeType::Mirrored { initial_sync: false }),
            'M' => Some(LVVolumeType::Mirrored { initial_sync: true }),
            'o' => Some(LVVolumeType::Origin { merging_snapshot: false }),
            'O' => Some(LVVolumeType::Origin { merging_snapshot: true }),
            'r' => Some(LVVolumeType::Raid { initial_sync: true }),
            'R' => Some(LVVolumeType::Raid { initial_sync: false }),
            's' => Some(LVVolumeType::Snapshot { merging: true }),
            'S' => Some(LVVolumeType::Snapshot { merging: false }),
            'p' => Some(LVVolumeType::PVMove),
            'v' => Some(LVVolumeType::Virtual),
            'i' => Some(LVVolumeType::MirrorOrRaid { out_of_sync: false }),
            'I' => Some(LVVolumeType::MirrorOrRaid { out_of_sync: true }),
            'l' => Some(LVVolumeType::MirrorLog),
            'c' => Some(LVVolumeType::UnderConversion),
            'V' => Some(LVVolumeType::ThinVolume),
            't' => Some(LVVolumeType::ThinPool { data: false }),
            'T' => Some(LVVolumeType::ThinPool { data: true }),
            'd' => Some(LVVolumeType::VDOPool { data: false }),
            'D' => Some(LVVolumeType::VDOPool { data: true }),
            'e' => Some(LVVolumeType::RaidOrPoolMetadataOrPoolMetadataSpare),
            _ => None,
        }
    }

    fn try_from_char(c: char) -> (r: Result<Self, AttributeError>) {
        match c {
            '-' => Ok(LVVolumeType::Simple),
            'C' => Ok(LVVolumeType::Cache),
            'm' => Ok(LVVolumeType::Mirrored { initial_sync: false }),
            'M' => Ok(LVVolumeType::Mirrored { initial_sync: true }),
            'o' => Ok(LVVolumeType::Origin { merging_snapshot: false }),
            'O' => Ok(LVVolumeType::Origin { merging_snapshot: true }),
            'r' => Ok(LVVolumeType::Raid { initial_sync: true }),
            'R' => Ok(LVVolumeType::Raid { initial_sync: false }),
            's' => Ok(LVVolumeType::Snapshot { merging: true }),
            'S' => Ok(LVVolumeType::Snapshot { merging: false }),
            'p' => Ok(LVVolumeType::PVMove),
            'v' => Ok(LVVolumeType::Virtual),
            'i' => Ok(LVVolumeType::MirrorOrRaid { out_of_sync: false }),
            'I' => Ok(LVVolumeType::MirrorOrRaid { out_of_sync: true }),
            'l' => Ok(LVVolumeType::MirrorLog),
            'c' => Ok(LVVolumeType::UnderConversion),
            'V' => Ok(LVVolumeType::ThinVolume),
            't' => Ok(LVVolumeType::ThinPool { data: false }),
            'T' => Ok(LVVolumeType::ThinPool { data: true }),
            'd' => Ok(LVVolumeType::VDOPool { data: false }),
            'D' => Ok(LVVolumeType::VDOPool { data: true }),
            'e' => Ok(LVVolumeType::RaidOrPoolMetadataOrPoolMetadataSpare),
            _ => Err(AttributeError::Invalid { field: AttributeField::VolumeType, flag: c }),
        }
    }
}

} // verus!
