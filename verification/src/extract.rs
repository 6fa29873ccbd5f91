use crate::error::UuidError;
use crate::text::{parse_of, parse_uuid};
use crate::timestamp::{in_calendar_range, timestamp_of, UnixTime};
use crate::value::{node_of, version_of};
use vstd::prelude::*;

verus! {

/// The version field of the UUID that a text spells.
pub fn extract_version(uuid_str: &str) -> (r: Result<usize, UuidError>)
    ensures
        match parse_of(uuid_str@) {
            Some(bytes) => r == Ok::<usize, UuidError>(version_of(bytes) as usize),
            None => r == Err::<usize, UuidError>(UuidError::InvalidFormat),
        },
{
    match parse_uuid(uuid_str) {
        Ok(uuid) => Ok(uuid.get_version() as usize),
        Err(e) => Err(e),
    }
}

/// The timestamp embedded in the UUID that a text spells, once the calendar
/// has been found to represent it. A UUID without a timestamp is told apart
/// from a text that is no UUID, and both from a timestamp out of range.
pub fn extract_timestamp(uuid_str: &str) -> (r: Result<UnixTime, UuidError>)
    ensures
        match parse_of(uuid_str@) {
            None => r == Err::<UnixTime, UuidError>(UuidError::InvalidFormat),
            Some(bytes) => match timestamp_of(bytes) {
                None => r == Err::<UnixTime, UuidError>(UuidError::NoTimestamp),
                Some(t) => if in_calendar_range(t.0, t.1) {
                    r matches Ok(time) && time@ == t
                } else {
                    r == Err::<UnixTime, UuidError>(UuidError::InvalidTimestamp)
                },
            },
        },
{
    match parse_uuid(uuid_str) {
        Ok(uuid) => match uuid.get_timestamp() {
            Some(time) => time.validate(),
            None => Err(UuidError::NoTimestamp),
        },
        Err(e) => Err(e),
    }
}

/// The node of the UUID that a text spells. A UUID without a node is told
/// apart from a text that is no UUID.
pub fn extract_node(uuid_str: &str) -> (r: Result<[u8; 6], UuidError>)
    ensures
        match parse_of(uuid_str@) {
            None => r == Err::<[u8; 6], UuidError>(UuidError::InvalidFormat),
            Some(bytes) => match node_of(bytes) {
                None => r == Err::<[u8; 6], UuidError>(UuidError::NoNode),
                Some(node) => r matches Ok(n) && n@ == node,
            },
        },
{
    match parse_uuid(uuid_str) {
        Ok(uuid) => match uuid.get_node() {
            Some(node) => Ok(node),
            None => Err(UuidError::NoNode),
        },
        Err(e) => Err(e),
    }
}

} // verus!
