//! Server settings.
use vstd::prelude::*;

use crate::text::{parse_u16, u16_of};

verus! {

/// The port served when none is set, or the setting is not a port number.
pub const DEFAULT_PORT: u16 = 8000;

/// The port to listen on, given the `PORT` setting if there is one.
pub fn port_from(setting: Option<&str>) -> (r: u16)
    ensures
        r == (match setting {
            Some(s) => match u16_of(s@) {
                Some(p) => p,
                None => DEFAULT_PORT,
            },
            None => DEFAULT_PORT,
        }),
{
    match setting {
        Some(s) => match parse_u16(s) {
            Some(p) => p,
            None => DEFAULT_PORT,
        },
        None => DEFAULT_PORT,
    }
}

} // verus!
