//! Identifiers of the fixed transport channels.

use vstd::prelude::*;

verus! {

/// Common management channel.
pub const MANAGEMENT: u16 = 0x02;

/// Service management channel.
pub const SERVICE_MGMT: u16 = 0x0A;

/// Default unicast data channel.
pub const DEFAULT_DATA: u16 = 0x1F;

} // verus!
