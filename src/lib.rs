//! Typed access to the LVM2 command-line reporting interface.
//!
//! The library builds the commands that each operation runs ([command::Invocation]),
//! and decides and decodes from what those commands printed ([command::ProcessOutput]):
//! exit codes, JSON reports and the positional attribute strings of volumes and volume
//! groups. Running the commands is left to the caller.
use vstd::prelude::*;

mod attributes;
pub mod command;
pub mod error;
mod fields;
pub mod lv;
pub mod pattern;
pub mod report;
mod resource_capacity;
mod resource_name;
mod resource_uuid;
pub mod text;
pub mod vg;

pub use attributes::{
    char_result, field_at, flag_at, AllocationPolicy, AttributeError, AttributeField, Permissions,
    TryFromChar,
};
pub use resource_capacity::{
    capacity_of, lemma_capacity_of, lemma_round_up, nearest_size_multiple, round_up_512,
    InvalidResourceCapacityError, ResourceCapacity, SECTOR_SIZE,
};
pub use resource_name::{InvalidResourceNameError, ResourceName};
pub use resource_uuid::{InvalidResourceUUIDError, ResourceUUID};
