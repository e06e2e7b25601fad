use vstd::prelude::*;

use crate::attributes::{
    decode_field, decode_flag, field_at, flag_at, AllocationPolicy, AttributeError,
    AttributeField, Permissions, TryFromChar,
};
use crate::lv::{LVState, LVStatus, LVVolumeType};

verus! {

/// The attributes of a logical volume, one per position of its attribute string.
#[derive(Clone, Copy, Debug, PartialEq, Eq, Structural)]
pub struct LogicalVolumeAttributes {
    pub volume_type: LVVolumeType,
    pub permissions: Permissions,
    pub allocation_policy: AllocationPolicy,
    pub is_fixed_minor: bool,
    pub state: LVState,
    pub status: LVStatus,
}

/// The attributes that the attribute string `s` encodes: its first six characters are
/// decoded left to right, and the first field that is missing or holds a character
/// outside its table is the error. Characters after the sixth are not read.
pub open spec fn lv_attrs_of(s: Seq<char>) -> Result<LogicalVolumeAttributes, AttributeError> {
    match field_at::<LVVolumeType>(s, 0) {
        Err(e) => Err(e),
        Ok(volume_type) => match field_at::<Permissions>(s, 1) {
            Err(e) => Err(e),
            Ok(permissions) => match field_at::<AllocationPolicy>(s, 2) {
                Err(e) => Err(e),
                Ok(allocation_policy) => match flag_at(s, 3, AttributeField::FixedMinor, 'm') {
                    Err(e) => Err(e),
                    Ok(is_fixed_minor) => match field_at::<LVState>(s, 4) {
                        Err(e) => Err(e),
                        Ok(state) => match field_at::<LVStatus>(s, 5) {
                            Err(e) => Err(e),
                            Ok(status) => Ok(
                                LogicalVolumeAttributes {
                                    volume_type,
                                    permissions,
                                    allocation_policy,
                                    is_fixed_minor,
                                    state,
                                    status,
                                },
                            ),
                        },
                    },
                },
            },
        },
    }
}

/// Decodes a logical volume's attribute string, such as `-wi-a-----`.
pub fn deserialize_lv_attrs(attrs: &str) -> (r: Result<LogicalVolumeAttributes, AttributeError>)
    ensures
        r == lv_attrs_of(attrs@),
{
    let n = attrs.unicode_len();
    let volume_type = match decode_field::<LVVolumeType>(attrs, n, 0, AttributeField::VolumeType) {
        Ok(v) => v,
        Err(e) => return Err(e),
    };
    let permissions = match decode_field::<Permissions>(attrs, n, 1, AttributeField::Permissions) {
        Ok(v) => v,
        Err(e) => return Err(e),
    };
    let allocation_policy = match decode_field::<AllocationPolicy>(
        attrs,
        n,
        2,
        AttributeField::AllocationPolicy,
    ) {
        Ok(v) => v,
        Err(e) => return Err(e),
    };
    let is_fixed_minor = match decode_flag(attrs, n, 3, AttributeField::FixedMinor, 'm') {
        Ok(v) => v,
        Err(e) => return Err(e),
    };
    let state = match decode_field::<LVState>(attrs, n, 4, AttributeField::State) {
        Ok(v) => v,
        Err(e) => return Err(e),
    };
    let status = match decode_field::<LVStatus>(attrs, n, 5, AttributeField::Status) {
        Ok(v) => v,
        Err(e) => return Err(e),
    };
    Ok(
        LogicalVolumeAttributes {
            volume_type,
            permissions,
            allocation_policy,
            is_fixed_minor,
            state,
            status,
        },
    )
}

/// The field at position `i` of a logical volume's attribute string.
pub open spec fn lv_field(i: int) -> AttributeField {
    if i == 0 {
        AttributeField::VolumeType
    } else if i == 1 {
        AttributeField::Permissions
    } else if i == 2 {
        AttributeField::AllocationPolicy
    } else if i == 3 {
        AttributeField::FixedMinor
    } else if i == 4 {
        AttributeField::State
    } else {
        AttributeField::Status
    }
}

/// Whether `c` is one of the flags of the field at position `i`.
pub open spec fn lv_flag_ok(i: int, c: char) -> bool {
    if i == 0 {
        LVVolumeType::spec_from_char(c) is Some
    } else if i == 1 {
        Permissions::spec_from_char(c) is Some
    } else if i == 2 {
        AllocationPolicy::spec_from_char(c) is Some
    } else if i == 3 {
        c == '-' || c == 'm'
    } else if i == 4 {
        LVState::spec_from_char(c) is Some
    } else {
        LVStatus::spec_from_char(c) is Some
    }
}

/// Decoding stops at the first field that fails: where the first `k` characters are
/// flags of their fields, a string that ends there fails naming field `k` as missing, and
/// a character at position `k` outside that field's table fails naming field `k` and the
/// character. Where all six are flags, decoding succeeds whatever follows them.
pub proof fn lemma_lv_attrs_first_failure(s: Seq<char>, k: int)
    requires
        0 <= k <= 6,
        forall|i: int| 0 <= i < k ==> i < s.len() && lv_flag_ok(i, #[trigger] s[i]),
    ensures
        k < 6 && k >= s.len() ==> lv_attrs_of(s) == Err::<LogicalVolumeAttributes, AttributeError>(
            AttributeError::Missing { field: lv_field(k) },
        ),
        k < 6 && k < s.len() && !lv_flag_ok(k, s[k]) ==> lv_attrs_of(s) == Err::<
            LogicalVolumeAttributes,
            AttributeError,
        >(AttributeError::Invalid { field: lv_field(k), flag: s[k] }),
        k == 6 ==> lv_attrs_of(s) is Ok,
{
    if k > 0 {
        assert(lv_flag_ok(0, s[0]));
    }
    if k > 1 {
        assert(lv_flag_ok(1, s[1]));
    }
    if k > 2 {
        assert(lv_flag_ok(2, s[2]));
    }
    if k > 3 {
        assert(lv_flag_ok(3, s[3]));
    }
    if k > 4 {
        assert(lv_flag_ok(4, s[4]));
    }
    if k > 5 {
        assert(lv_flag_ok(5, s[5]));
    }
}

} // verus!
