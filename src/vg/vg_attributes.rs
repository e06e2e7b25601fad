use vstd::prelude::*;

use crate::attributes::{
    decode_field, decode_flag, field_at, flag_at, AllocationPolicy, AttributeError,
    AttributeField, Permissions, TryFromChar,
};
use crate::vg::VolumeGroupAccessMode;

verus! {

/// The attributes of a volume group, one per position of its attribute string.
#[derive(Clone, Copy, Debug, PartialEq, Eq, Structural)]
pub struct VolumeGroupAttributes {
    pub permissions: Permissions,
    /// Whether the volume group can be resized.
    pub is_resizeable: bool,
    /// Whether the volume group is exported.
    pub is_exported: bool,
    /// Whether one or more physical volumes of the volume group are missing from the system.
    pub is_partial: bool,
    pub allocation_policy: AllocationPolicy,
    pub access_mode: VolumeGroupAccessMode,
}

/// The attributes that the attribute string `s` encodes: its first six characters are
/// decoded left to right, and the first field that is missing or holds a character
/// outside its table is the error. Characters after the sixth are not read.
pub open spec fn vg_attrs_of(s: Seq<char>) -> Result<VolumeGroupAttributes, AttributeError> {
    match field_at::<Permissions>(s, 0) {
        Err(e) => Err(e),
        Ok(permissions) => match flag_at(s, 1, AttributeField::Resizeable, 'z') {
            Err(e) => Err(e),
            Ok(is_resizeable) => match flag_at(s, 2, AttributeField::Exported, 'x') {
                Err(e) => Err(e),
                Ok(is_exported) => match flag_at(s, 3, AttributeField::Partial, 'p') {
                    Err(e) => Err(e),
                    Ok(is_partial) => match field_at::<AllocationPolicy>(s, 4) {
                        Err(e) => Err(e),
                        Ok(allocation_policy) => match field_at::<VolumeGroupAccessMode>(s, 5) {
                            Err(e) => Err(e),
                            Ok(access_mode) => Ok(
                                VolumeGroupAttributes {
                                    permissions,
                                    is_resizeable,
                                    is_exported,
                                    is_partial,
                                    allocation_policy,
                                    access_mode,
                                },
                            ),
                        },
                    },
                },
            },
        },
    }
}

/// Decodes a volume group's attribute string, such as `wz--n-`.
pub fn deserialize_vg_attrs(attrs: &str) -> (r: Result<VolumeGroupAttributes, AttributeError>)
    ensures
        r == vg_attrs_of(attrs@),
{
    let n = attrs.unicode_len();
    let permissions = match decode_field::<Permissions>(attrs, n, 0, AttributeField::Permissions) {
        Ok(v) => v,
        Err(e) => return Err(e),
    };
    let is_resizeable = match decode_flag(attrs, n, 1, AttributeField::Resizeable, 'z') {
        Ok(v) => v,
        Err(e) => return Err(e),
    };
    let is_exported = match decode_flag(attrs, n, 2, AttributeField::Exported, 'x') {
        Ok(v) => v,
        Err(e) => return Err(e),
    };
    let is_partial = match decode_flag(attrs, n, 3, AttributeField::Partial, 'p') {
        Ok(v) => v,
        Err(e) => return Err(e),
    };
    let allocation_policy = match decode_field::<AllocationPolicy>(
        attrs,
        n,
        4,
        AttributeField::AllocationPolicy,
    ) {
        Ok(v) => v,
        Err(e) => return Err(e),
    };
    let access_mode = match decode_field::<VolumeGroupAccessMode>(
        attrs,
        n,
        5,
        AttributeField::AccessMode,
    ) {
        Ok(v) => v,
        Err(e) => return Err(e),
    };
    Ok(
        VolumeGroupAttributes {
            permissions,
            is_resizeable,
            is_exported,
            is_partial,
            allocation_policy,
            access_mode,
        },
    )
}

/// The field at position `i` of a volume group's attribute string.
pub open spec fn vg_field(i: int) -> AttributeField {
    if i == 0 {
        AttributeField::Permissions
    } else if i == 1 {
        AttributeField::Resizeable
    } else if i == 2 {
        AttributeField::Exported
    } else if i == 3 {
        AttributeField::Partial
    } else if i == 4 {
        AttributeField::AllocationPolicy
    } else {
        AttributeField::AccessMode
    }
}

/// Whether `c` is one of the flags of the field at position `i`.
pub open spec fn vg_flag_ok(i: int, c: char) -> bool {
    if i == 0 {
        Permissions::spec_from_char(c) is Some
    } else if i == 1 {
        c == '-' || c == 'z'
    } else if i == 2 {
        c == '-' || c == 'x'
    } else if i == 3 {
        c == '-' || c == 'p'
    } else if i == 4 {
        AllocationPolicy::spec_from_char(c) is Some
    } else {
        VolumeGroupAccessMode::spec_from_char(c) is Some
    }
}

/// Decoding stops at the first field that fails: where the first `k` characters are
/// flags of their fields, a string that ends there fails naming field `k` as missing, and
/// a character at position `k` outside that field's table fails naming field `k` and the
/// character. Where all six are flags, decoding succeeds whatever follows them.
pub proof fn lemma_vg_attrs_first_failure(s: Seq<char>, k: int)
    requires
        0 <= k <= 6,
        forall|i: int| 0 <= i < k ==> i < s.len() && vg_flag_ok(i, #[trigger] s[i]),
    ensures
        k < 6 && k >= s.len() ==> vg_attrs_of(s) == Err::<VolumeGroupAttributes, AttributeError>(
            AttributeError::Missing { field: vg_field(k) },
        ),
        k < 6 && k < s.len() && !vg_flag_ok(k, s[k]) ==> vg_attrs_of(s) == Err::<
            VolumeGroupAttributes,
            AttributeError,
        >(AttributeError::Invalid { field: vg_field(k), flag: s[k] }),
        k == 6 ==> vg_attrs_of(s) is Ok,
{
    if k > 0 {
        assert(vg_flag_ok(0, s[0]));
    }
    if k > 1 {
        assert(vg_flag_ok(1, s[1]));
    }
    if k > 2 {
        assert(vg_flag_ok(2, s[2]));
    }
    if k > 3 {
        assert(vg_flag_ok(3, s[3]));
    }
    if k > 4 {
        assert(vg_flag_ok(4, s[4]));
    }
    if k > 5 {
        assert(vg_flag_ok(5, s[5]));
    }
}

} // verus!
