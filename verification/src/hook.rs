//! Hooks: handlers that an event triggers.

use vstd::prelude::*;

verus! {

/// A hook is triggered by an event.
pub trait Hook<E> {
    /// This method is called when the event `E` happens.
    fn call_hook(event: E) -> Result<(), anyhow::Error>;
}

} // verus!
