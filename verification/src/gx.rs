//! Helpers around the graphics API that only compute.
use vstd::prelude::*;
use crate::words::chars_of;

verus! {

/// Reads the major and minor version numbers from a version string such as `"4.5.0 ..."`:
/// the first and the third character, as digits. Those characters must be at least `'0'`.
pub fn parse_version_string(version_string: &str) -> (r: (u32, u32))
    requires
        version_string@.len() >= 3,
        version_string@[0] as u32 >= '0' as u32,
        version_string@[2] as u32 >= '0' as u32,
    ensures
        r.0 == version_string@[0] as u32 - '0' as u32,
        r.1 == version_string@[2] as u32 - '0' as u32,
{
    let chars = chars_of(version_string);
    (chars[0] as u32 - '0' as u32, chars[2] as u32 - '0' as u32)
}

} // verus!
