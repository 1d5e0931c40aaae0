use vstd::prelude::*;

verus! {

/// Normal mode, used for starting and retrieving measurements.
///
/// A sensor handle tagged with this marker may request a measurement and read
/// the resulting frame, and nothing else.
pub struct Normal;

/// Command mode, used for configuring the sensor.
///
/// A sensor handle tagged with this marker may only attempt to return to
/// normal mode; measurement operations are unavailable by construction.
pub struct Command;

} // verus!
