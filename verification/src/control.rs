//! What the serving side can tell the worker.

use vstd::prelude::*;

verus! {

/// A lifecycle instruction for the worker.
///
/// Every variant is delivered the same way; the worker decides what each one
/// means.
#[derive(Clone, Copy, Debug, PartialEq, Eq, Structural)]
pub enum ControlMessage {
    /// Release the device and end the polling loop.
    Stop,
}

} // verus!
