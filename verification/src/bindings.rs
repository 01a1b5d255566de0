//! Bindings module - scripting-host integration.
//!
//! The library's formatting helpers and widget specifications can be
//! exposed to an embedded scripting VM.  This module holds the data side
//! of that bridge: the module handle and the plain specification types
//! under [`specs`].  The registration call itself talks to the VM and
//! lives with the host application.

use vstd::prelude::*;

pub mod specs;

verus! {

/// Handle for the set of native functions the library contributes to a
/// scripting host.
#[derive(Clone, Copy, Debug, PartialEq, Eq, Structural)]
pub struct FusabiTuiModule;

impl FusabiTuiModule {
    /// Create a new module handle.
    pub fn new() -> (r: FusabiTuiModule)
        ensures
            r == FusabiTuiModule,
    {
        FusabiTuiModule
    }
}

impl Default for FusabiTuiModule {
    /// The same handle `new` creates.
    fn default() -> (r: FusabiTuiModule)
        ensures
            r == FusabiTuiModule,
    {
        FusabiTuiModule::new()
    }
}

} // verus!
