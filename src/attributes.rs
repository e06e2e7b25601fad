use vstd::prelude::*;

verus! {

/// One position of an attribute string.
#[derive(Clone, Copy, Debug, PartialEq, Eq, Structural)]
pub enum AttributeField {
    VolumeType,
    Permissions,
    AllocationPolicy,
    FixedMinor,
    State,
    Status,
    Resizeable,
    Exported,
    Partial,
    AccessMode,
}

/// Why an attribute string could not be decoded.
#[derive(Clone, Copy, Debug, PartialEq, Eq, Structural)]
pub enum AttributeError {
    /// The string ended before this field.
    Missing { field: AttributeField },
    /// The character at this field's position is not one of the field's flags.
    Invalid { field: AttributeField, flag: char },
}

/// The name of an attribute field, as error messages write it.
pub open spec fn field_name(f: AttributeField) -> Seq<char> {
    match f {
        AttributeField::VolumeType => "volume type"@,
        AttributeField::Permissions => "permissions"@,
        AttributeField::AllocationPolicy => "allocation policy"@,
        AttributeField::FixedMinor => "fixed minor"@,
        AttributeField::State => "state"@,
        AttributeField::Status => "status"@,
        AttributeField::Resizeable => "resizeable"@,
        AttributeField::Exported => "exported"@,
        AttributeField::Partial => "partial"@,
        AttributeField::AccessMode => "access mode"@,
    }
}

impl AttributeField {
    /// The name of the field, as error messages write it.
    pub fn name(&self) -> (r: &'static str)
        ensures
            r@ == field_name(*self),
    {
        match self {
            AttributeField::VolumeType => "volume type",
            AttributeField::Permissions => "permissions",
            AttributeField::AllocationPolicy => "allocation policy",
            AttributeField::FixedMinor => "fixed minor",
            AttributeField::State => "state",
            AttributeField::Status => "status",
            AttributeField::Resizeable => "resizeable",
            AttributeField::Exported => "exported",
            AttributeField::Partial => "partial",
            AttributeField::AccessMode => "access mode",
        }
    }
}

impl AttributeError {
    /// Describes the error: the field, and the character where one was found.
    pub fn to_string(&self) -> (r: String)
        ensures
            self matches AttributeError::Missing { field } ==> r@ == "could not get "@
                + field_name(*field) + " attribute"@,
            self matches AttributeError::Invalid { field, .. } ==> ("invalid flag for "@
                + field_name(*field) + ": "@).is_prefix_of(r@),
    {
        match self {
            AttributeError::Missing { field } => {
                let mut r = String::from_str("could not get ");
                r.append(field.name());
                r.append(" attribute");
                r
            },
            AttributeError::Invalid { field, flag } => {
                let mut r = String::from_str("invalid flag for ");
                r.append(field.name());
                r.append(": ");
                let ghost head = r@;
                let all = r.concat(flag.to_string().as_str());
                assert(head.is_prefix_of(all@)) by {
                    assert(all@.subrange(0, head.len() as int) =~= head);
                }
                all
            },
        }
    }
}

/// A value that a single attribute character stands for.
pub trait TryFromChar: Sized {
    /// The attribute field whose characters this type decodes.
    spec fn spec_field() -> AttributeField;

    /// The value that `c` stands for, if `c` is one of the field's flags.
    spec fn spec_from_char(c: char) -> Option<Self>;

    /// Decodes one attribute character.
    fn try_from_char(c: char) -> (r: Result<Self, AttributeError>)
        ensures
            match Self::spec_from_char(c) {
                Some(v) => r == Ok::<Self, AttributeError>(v),
                None => r == Err::<Self, AttributeError>(
                    AttributeError::Invalid { field: Self::spec_field(), flag: c },
                ),
            },
    ;
}

/// What [TryFromChar::try_from_char] returns for `c`.
pub open spec fn char_result<T: TryFromChar>(c: char) -> Result<T, AttributeError> {
    match T::spec_from_char(c) {
        Some(v) => Ok(v),
        None => Err(AttributeError::Invalid { field: T::spec_field(), flag: c }),
    }
}

/// The value of the field at position `i` of the attribute string `s`.
pub open spec fn field_at<T: TryFromChar>(s: Seq<char>, i: int) -> Result<T, AttributeError> {
    if i < s.len() {
        char_result::<T>(s[i])
    } else {
        Err(AttributeError::Missing { field: T::spec_field() })
    }
}

/// The value of a flag field at position `i` of `s`: `-` is off and `on` is on.
pub open spec fn flag_at(s: Seq<char>, i: int, field: AttributeField, on: char) -> Result<
    bool,
    AttributeError,
> {
    if i >= s.len() {
        Err(AttributeError::Missing { field })
    } else if s[i] == '-' {
        Ok(false)
    } else if s[i] == on {
        Ok(true)
    } else {
        Err(AttributeError::Invalid { field, flag: s[i] })
    }
}

/// Decodes the field at position `i` of `s`, whose length in characters is `n`.
pub(crate) fn decode_field<T: TryFromChar>(
    s: &str,
    n: usize,
    i: usize,
    field: AttributeField,
) -> (r: Result<T, AttributeError>)
    requires
        n == s@.len(),
        field == T::spec_field(),
    ensures
        r == field_at::<T>(s@, i as int),
{
    if i < n {
        T::try_from_char(s.get_char(i))
    } else {
        Err(AttributeError::Missing { field })
    }
}

/// Decodes the flag field at position `i` of `s`, whose length in characters is `n`.
pub(crate) fn decode_flag(s: &str, n: usize, i: usize, field: AttributeField, on: char) -> (r:
    Result<bool, AttributeError>)
    requires
        n == s@.len(),
    ensures
        r == flag_at(s@, i as int, field, on),
{
    if i >= n {
        return Err(AttributeError::Missing { field });
    }
    let c = s.get_char(i);
    if c == '-' {
        Ok(false)
    } else if c == on {
        Ok(true)
    } else {
        Err(AttributeError::Invalid { field, flag: c })
    }
}

/// Access permissions of a volume or volume group.
#[derive(Clone, Copy, Debug, PartialEq, Eq, Structural)]
pub enum Permissions {
    Writeable,
    ReadOnly,
    /// Like read-only, but symbolizes a read-only activation of a writeable volume.
    ReadOnlyActivation,
}

impl TryFromChar for Permissions {
    open spec fn spec_field() -> AttributeField {
        AttributeField::Permissions
    }

    open spec fn spec_from_char(c: char) -> Option<Self> {
        match c {
            'w' => Some(Permissions::Writeable),
            'r' => Some(Permissions::ReadOnly),
            'R' => Some(Permissions::ReadOnlyActivation),
            _ => None,
        }
    }

    fn try_from_char(c: char) -> (r: Result<Self, AttributeError>) {
        match c {
            'w' => Ok(Permissions::Writeable),
            'r' => Ok(Permissions::ReadOnly),
            'R' => Ok(Permissions::ReadOnlyActivation),
            _ => Err(AttributeError::Invalid { field: AttributeField::Permissions, flag: c }),
        }
    }
}

/// The allocation policy of a volume or volume group; an upper-case flag means locked.
#[derive(Clone, Copy, Debug, PartialEq, Eq, Structural)]
pub enum AllocationPolicy {
    Anyware { locked: bool },
    Contiguous { locked: bool },
    Inherited { locked: bool },
    Cling { locked: bool },
    Normal { locked: bool },
}

impl TryFromChar for AllocationPolicy {
    open spec fn spec_field() -> AttributeField {
        AttributeField::AllocationPolicy
    }

    open spec fn spec_from_char(c: char) -> Option<Self> {
        match c {
            'a' => Some(AllocationPolicy::Anyware { locked: false }),
            'A' => Some(AllocationPolicy::Anyware { locked: true }),
            'c' => Some(AllocationPolicy::Contiguous { locked: false }),
            'C' => Some(AllocationPolicy::Contiguous { locked: true }),
            'i' => Some(AllocationPolicy::Inherited { locked: false }),
            'I' => Some(AllocationPolicy::Inherited { locked: true }),
            'l' => Some(AllocationPolicy::Cling { locked: false }),
            'L' => Some(AllocationPolicy::Cling { locked: true }),
            'n' => Some(AllocationPolicy::Normal { locked: false }),
            'N' => Some(AllocationPolicy::Normal { locked: true }),
            _ => None,
        }
    }

    fn try_from_char(c: char) -> (r: Result<Self, AttributeError>) {
        match c {
            'a' => Ok(AllocationPolicy::Anyware { locked: false }),
            'A' => Ok(AllocationPolicy::Anyware { locked: true }),
            'c' => Ok(AllocationPolicy::Contiguous { locked: false }),
            'C' => Ok(AllocationPolicy::Contiguous { locked: true }),
            'i' => Ok(AllocationPolicy::Inherited { locked: false }),
            'I' => Ok(AllocationPolicy::Inherited { locked: true }),
            'l' => Ok(AllocationPolicy::Cling { locked: false }),
            'L' => Ok(AllocationPolicy::Cling { locked: true }),
            'n' => Ok(AllocationPolicy::Normal { locked: false }),
            'N' => Ok(AllocationPolicy::Normal { locked: true }),
            _ => Err(AttributeError::Invalid { field: AttributeField::AllocationPolicy, flag: c }),
        }
    }
}

} // verus!
