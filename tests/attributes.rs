use lvm2_cmd::lv::{
    deserialize_lv_attrs, LVState, LVStatus, LVVolumeType, LogicalVolumeAttributes,
};
use lvm2_cmd::vg::{deserialize_vg_attrs, VolumeGroupAccessMode, VolumeGroupAttributes};
use lvm2_cmd::{AllocationPolicy, AttributeError, AttributeField, Permissions, TryFromChar};

#[test]
fn decodes_a_plain_volume() {
    assert_eq!(
        deserialize_lv_attrs("-wi-a-----"),
        Ok(LogicalVolumeAttributes {
            volume_type: LVVolumeType::Simple,
            permissions: Permissions::Writeable,
            allocation_policy: AllocationPolicy::Inherited { locked: false },
            is_fixed_minor: false,
            state: LVState::Active,
            status: LVStatus::Closed,
        })
    );
}

#[test]
fn decodes_exactly_six_characters() {
    let a = deserialize_lv_attrs("twC-ao").unwrap();
    assert_eq!(a.volume_type, LVVolumeType::ThinPool { data: false });
    assert_eq!(a.allocation_policy, AllocationPolicy::Contiguous { locked: true });
    assert_eq!(a.status, LVStatus::Open);
    assert_eq!(deserialize_lv_attrs("Vri-a-").unwrap().permissions, Permissions::ReadOnly);
    assert!(deserialize_lv_attrs("-wimSX").unwrap().is_fixed_minor);
}

#[test]
fn unknown_flag_names_its_field() {
    assert_eq!(
        deserialize_lv_attrs("-wi-Z-----"),
        Err(AttributeError::Invalid { field: AttributeField::State, flag: 'Z' })
    );
    assert_eq!(
        deserialize_lv_attrs("Zwi-a-"),
        Err(AttributeError::Invalid { field: AttributeField::VolumeType, flag: 'Z' })
    );
    assert_eq!(
        deserialize_lv_attrs("-wi-a?"),
        Err(AttributeError::Invalid { field: AttributeField::Status, flag: '?' })
    );
    assert_eq!(
        deserialize_lv_attrs("-wiXa-"),
        Err(AttributeError::Invalid { field: AttributeField::FixedMinor, flag: 'X' })
    );
}

#[test]
fn short_string_names_the_missing_field() {
    assert_eq!(
        deserialize_lv_attrs("-wi-"),
        Err(AttributeError::Missing { field: AttributeField::State })
    );
    assert_eq!(
        deserialize_lv_attrs(""),
        Err(AttributeError::Missing { field: AttributeField::VolumeType })
    );
    assert_eq!(
        deserialize_vg_attrs("wz--n"),
        Err(AttributeError::Missing { field: AttributeField::AccessMode })
    );
}

#[test]
fn decodes_a_volume_group() {
    assert_eq!(
        deserialize_vg_attrs("wz--n-"),
        Ok(VolumeGroupAttributes {
            permissions: Permissions::Writeable,
            is_resizeable: true,
            is_exported: false,
            is_partial: false,
            allocation_policy: AllocationPolicy::Normal { locked: false },
            access_mode: VolumeGroupAccessMode::SingleNode,
        })
    );
    let g = deserialize_vg_attrs("rzxpLc").unwrap();
    assert!(g.is_exported && g.is_partial);
    assert_eq!(g.allocation_policy, AllocationPolicy::Cling { locked: true });
    assert_eq!(g.access_mode, VolumeGroupAccessMode::Clustered);
    assert_eq!(
        deserialize_vg_attrs("wy--n-"),
        Err(AttributeError::Invalid { field: AttributeField::Resizeable, flag: 'y' })
    );
}

#[test]
fn single_characters_decode_by_table() {
    assert_eq!(Permissions::try_from_char('R'), Ok(Permissions::ReadOnlyActivation));
    assert_eq!(
        Permissions::try_from_char('x'),
        Err(AttributeError::Invalid { field: AttributeField::Permissions, flag: 'x' })
    );
    assert_eq!(
        AllocationPolicy::try_from_char('A'),
        Ok(AllocationPolicy::Anyware { locked: true })
    );
    assert_eq!(LVState::try_from_char('X'), Ok(LVState::Unknown));
    assert_eq!(LVState::try_from_char('S'), Ok(LVState::InvalidSnapshot { suspended: true }));
    assert_eq!(LVVolumeType::try_from_char('r'), Ok(LVVolumeType::Raid { initial_sync: true }));
    assert_eq!(
        LVVolumeType::try_from_char('e'),
        Ok(LVVolumeType::RaidOrPoolMetadataOrPoolMetadataSpare)
    );
    assert_eq!(VolumeGroupAccessMode::try_from_char('s'), Ok(VolumeGroupAccessMode::Shared));
    assert!(LVStatus::try_from_char('O').is_err());
}

#[test]
fn attribute_errors_describe_themselves() {
    assert_eq!(
        AttributeError::Missing { field: AttributeField::State }.to_string(),
        "could not get state attribute"
    );
    assert_eq!(
        AttributeError::Invalid { field: AttributeField::AllocationPolicy, flag: 'q' }.to_string(),
        "invalid flag for allocation policy: q"
    );
    assert_eq!(AttributeField::AccessMode.name(), "access mode");
}
