//! The ways in which an operation of the store can fail.

use vstd::prelude::*;

verus! {

/// Why an operation failed.
#[derive(Debug, Clone, Copy, PartialEq, Eq, Structural)]
pub enum StoreError {
    /// The password was wrong, or the command needs a session that has logged in.
    AuthenticationFailure,
    /// The command works on a namespace, and none is selected.
    NamespaceRequiredButUnselected,
    /// The medium under the store could not be read or written.
    StorageIOFailure,
    /// A value at the boundary has no counterpart on the other side.
    ValueConversionFailure,
    /// The extension sandbox is switched off.
    ExtensionUnavailable,
    /// The loaded script raised an error.
    ExtensionRuntimeFailure,
}

/// The one signal that the access gateway gives when an operation fails. It says nothing
/// of the cause, so that nothing of the store's inside reaches an extension.
#[derive(Debug, Clone, Copy, PartialEq, Eq, Structural)]
pub struct GatewayFailure {}

impl GatewayFailure {
    /// The gateway's signal for `cause`, whatever it is.
    pub fn from_error(cause: StoreError) -> (failure: GatewayFailure)
        ensures
            failure == (GatewayFailure {  }),
    {
        GatewayFailure {  }
    }
}

} // verus!
