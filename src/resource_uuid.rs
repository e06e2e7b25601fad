use vstd::prelude::*;

use crate::pattern::{is_valid_uuid, regex_is_match, UUID_PATTERN};

verus! {

/// A valid resource UUID for LVM2: groups of 6, 4, 4, 4, 4, 4 and 6 ASCII letters or
/// digits joined by hyphens.
#[derive(Debug)]
pub struct ResourceUUID(String);

impl View for ResourceUUID {
    type V = Seq<char>;

    closed spec fn view(&self) -> Seq<char> {
        self.0@
    }
}

impl ResourceUUID {
    #[verifier::type_invariant]
    closed spec fn well_formed(self) -> bool {
        is_valid_uuid(self.0@)
    }

    /// Validates `value` as a resource UUID.
    pub fn new(value: &str) -> (r: Result<Self, InvalidResourceUUIDError>)
        ensures
            r is Ok <==> is_valid_uuid(value@),
            r matches Ok(n) ==> n@ == value@,
            r matches Err(e) ==> e.0@ == value@,
    {
        if !regex_is_match(UUID_PATTERN, value) {
            return Err(InvalidResourceUUIDError(value.to_owned()));
        }
        Ok(ResourceUUID(value.to_owned()))
    }

    /// The UUID as text.
    pub fn as_str(&self) -> (r: &str)
        ensures
            r@ == self@,
            is_valid_uuid(r@),
    {
        proof {
            use_type_invariant(self);
        }
        self.0.as_str()
    }

    /// The UUID as an owned string.
    pub fn to_string(&self) -> (r: String)
        ensures
            r@ == self@,
    {
        self.0.clone()
    }
}

impl Clone for ResourceUUID {
    fn clone(&self) -> (r: Self)
        ensures
            r@ == self@,
    {
        proof {
            use_type_invariant(self);
        }
        ResourceUUID(self.0.clone())
    }
}

impl<'a> TryFrom<&'a str> for ResourceUUID {
    type Error = InvalidResourceUUIDError;

    fn try_from(value: &'a str) -> (r: Result<Self, Self::Error>) {
        ResourceUUID::new(value)
    }
}

impl TryFrom<String> for ResourceUUID {
    type Error = InvalidResourceUUIDError;

    fn try_from(value: String) -> (r: Result<Self, Self::Error>) {
        ResourceUUID::new(value.as_str())
    }
}

// The result holds a `String`, which no spec value pins down by its characters: the
// contract of these conversions is that of `new`, which they call.
impl<'a> vstd::std_specs::convert::TryFromSpecImpl<&'a str> for ResourceUUID {
    open spec fn obeys_try_from_spec() -> bool {
        false
    }

    open spec fn try_from_spec(v: &'a str) -> Result<Self, Self::Error> {
        arbitrary()
    }
}

impl vstd::std_specs::convert::TryFromSpecImpl<String> for ResourceUUID {
    open spec fn obeys_try_from_spec() -> bool {
        false
    }

    open spec fn try_from_spec(v: String) -> Result<Self, Self::Error> {
        arbitrary()
    }
}

/// The error of a string that is not a valid resource UUID; it holds that string.
#[derive(Clone, Debug)]
pub struct InvalidResourceUUIDError(pub String);

impl InvalidResourceUUIDError {
    /// Describes the error, with the rejected string.
    pub fn to_string(&self) -> (r: String)
        ensures
            r@ == "UUID must be valid for LVM2 (^[a-zA-Z0-9]{6}-([a-zA-Z0-9]{4}-){5}[a-zA-Z0-9]{6}$): "@ + self.0@,
    {
        let mut r = String::from_str("UUID must be valid for LVM2 (^[a-zA-Z0-9]{6}-([a-zA-Z0-9]{4}-){5}[a-zA-Z0-9]{6}$): ");
        r.append(self.0.as_str());
        r
    }
}

} // verus!
