use vstd::prelude::*;

use crate::pattern::{is_valid_name, regex_is_match, NAME_PATTERN};

verus! {

/// A valid resource name for LVM2: a non-empty string of ASCII letters, digits and the
/// characters `+`, `_`, `.` and `-`.
///
/// The one exception is [ResourceName::empty], which selects every volume group where a
/// name is expected.
#[derive(Debug)]
pub struct ResourceName(String);

impl View for ResourceName {
    type V = Seq<char>;

    closed spec fn view(&self) -> Seq<char> {
        self.0@
    }
}

impl ResourceName {
    #[verifier::type_invariant]
    closed spec fn well_formed(self) -> bool {
        is_valid_name(self.0@) || self.0@.len() == 0
    }

    /// The empty name.
    pub fn empty() -> (r: Self)
        ensures
            r@ == Seq::<char>::empty(),
    {
        let r = ResourceName(String::new());
        assert(r@ =~= Seq::<char>::empty());
        r
    }

    /// Validates `value` as a resource name.
    pub fn new(value: &str) -> (r: Result<Self, InvalidResourceNameError>)
        ensures
            r is Ok <==> is_valid_name(value@),
            r matches Ok(n) ==> n@ == value@,
            r matches Err(e) ==> e.0@ == value@,
    {
        if !regex_is_match(NAME_PATTERN, value) {
            return Err(InvalidResourceNameError(value.to_owned()));
        }
        Ok(ResourceName(value.to_owned()))
    }

    /// The name as text.
    pub fn as_str(&self) -> (r: &str)
        ensures
            r@ == self@,
            is_valid_name(r@) || r@.len() == 0,
    {
        proof {
            use_type_invariant(self);
        }
        self.0.as_str()
    }

    /// The name as an owned string.
    pub fn to_string(&self) -> (r: String)
        ensures
            r@ == self@,
    {
        self.0.clone()
    }
}

impl Clone for ResourceName {
    fn clone(&self) -> (r: Self)
        ensures
            r@ == self@,
    {
        proof {
            use_type_invariant(self);
        }
        ResourceName(self.0.clone())
    }
}

impl<'a> TryFrom<&'a str> for ResourceName {
    type Error = InvalidResourceNameError;

    fn try_from(value: &'a str) -> (r: Result<Self, Self::Error>) {
        ResourceName::new(value)
    }
}

impl TryFrom<String> for ResourceName {
    type Error = InvalidResourceNameError;

    fn try_from(value: String) -> (r: Result<Self, Self::Error>) {
        ResourceName::new(value.as_str())
    }
}

// The result holds a `String`, which no spec value pins down by its characters: the
// contract of these conversions is that of `new`, which they call.
impl<'a> vstd::std_specs::convert::TryFromSpecImpl<&'a str> for ResourceName {
    open spec fn obeys_try_from_spec() -> bool {
        false
    }

    open spec fn try_from_spec(v: &'a str) -> Result<Self, Self::Error> {
        arbitrary()
    }
}

impl vstd::std_specs::convert::TryFromSpecImpl<String> for ResourceName {
    open spec fn obeys_try_from_spec() -> bool {
        false
    }

    open spec fn try_from_spec(v: String) -> Result<Self, Self::Error> {
        arbitrary()
    }
}

/// The error of a string that is not a valid resource name; it holds that string.
#[derive(Clone, Debug)]
pub struct InvalidResourceNameError(pub String);

impl InvalidResourceNameError {
    /// Describes the error, with the rejected string.
    pub fn to_string(&self) -> (r: String)
        ensures
            r@ == "name must be valid for LVM2 ([a-zA-Z0-9_.+-]): "@ + self.0@,
    {
        let mut r = String::from_str("name must be valid for LVM2 ([a-zA-Z0-9_.+-]): ");
        r.append(self.0.as_str());
        r
    }
}

} // verus!
