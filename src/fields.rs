use vstd::prelude::*;

use crate::command::is_malformed;
use crate::report::{field_error, number_member, text_member, ReportRecord};
use crate::error::LVMError;
use crate::pattern::{is_valid_name, is_valid_uuid};
use crate::{ResourceCapacity, ResourceName, ResourceUUID};

verus! {

/// Reads the member `key` of `rec` as a resource name.
pub(crate) fn name_member(rec: &ReportRecord, key: &str) -> (r: Result<ResourceName, LVMError>)
    ensures
        r is Ok <==> (text_member(rec@, key@) matches Some(t) && is_valid_name(t)),
        r matches Ok(n) ==> text_member(rec@, key@) == Some(n@),
        r matches Err(e) ==> is_malformed(&e, "could not decode wrapped type as JSON"@),
{
    match rec.text(key) {
        Some(t) => match ResourceName::new(t.as_str()) {
            Ok(n) => Ok(n),
            Err(_) => Err(field_error(key)),
        },
        None => Err(field_error(key)),
    }
}

/// Reads the member `key` of `rec` as a resource UUID.
pub(crate) fn uuid_member(rec: &ReportRecord, key: &str) -> (r: Result<ResourceUUID, LVMError>)
    ensures
        r is Ok <==> (text_member(rec@, key@) matches Some(t) && is_valid_uuid(t)),
        r matches Ok(u) ==> text_member(rec@, key@) == Some(u@),
        r matches Err(e) ==> is_malformed(&e, "could not decode wrapped type as JSON"@),
{
    match rec.text(key) {
        Some(t) => match ResourceUUID::new(t.as_str()) {
            Ok(u) => Ok(u),
            Err(_) => Err(field_error(key)),
        },
        None => Err(field_error(key)),
    }
}

/// Reads the member `key` of `rec` as a capacity.
pub(crate) fn capacity_member(rec: &ReportRecord, key: &str) -> (r: Result<
    ResourceCapacity,
    LVMError,
>)
    ensures
        r is Ok <==> (number_member(rec@, key@) matches Some(c) && c % 512 == 0),
        r matches Ok(c) ==> number_member(rec@, key@) == Some(c@),
        r matches Err(e) ==> is_malformed(&e, "could not decode wrapped type as JSON"@),
{
    match rec.number(key) {
        Some(n) => match ResourceCapacity::new(n) {
            Ok(c) => Ok(c),
            Err(_) => Err(field_error(key)),
        },
        None => Err(field_error(key)),
    }
}

/// Reads the member `key` of `rec` as a count.
pub(crate) fn count_member(rec: &ReportRecord, key: &str) -> (r: Result<usize, LVMError>)
    ensures
        r is Ok <==> number_member(rec@, key@) is Some,
        r matches Ok(n) ==> number_member(rec@, key@) == Some(n as nat),
        r matches Err(e) ==> is_malformed(&e, "could not decode wrapped type as JSON"@),
{
    match rec.number(key) {
        Some(n) => Ok(n),
        None => Err(field_error(key)),
    }
}

/// Reads the member `key` of `rec` as text.
pub(crate) fn text_field(rec: &ReportRecord, key: &str) -> (r: Result<String, LVMError>)
    ensures
        r is Ok <==> text_member(rec@, key@) is Some,
        r matches Ok(t) ==> text_member(rec@, key@) == Some(t@),
        r matches Err(e) ==> is_malformed(&e, "could not decode wrapped type as JSON"@),
{
    match rec.text(key) {
        Some(t) => Ok(t),
        None => Err(field_error(key)),
    }
}

} // verus!
