//! The error type of the driver.

use vstd::prelude::*;

verus! {

/// The error type used by this library: whatever the bus transport reported.
///
/// There is no error of the protocol's own. A status byte with unknown bits
/// is decoded by dropping them, and a write enable latch that did not set is
/// not an error.
#[derive(Debug)]
pub enum Error<E> {
    /// A bus transfer failed.
    Spi(E),
}

} // verus!
