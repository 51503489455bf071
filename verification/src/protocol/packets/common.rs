//! Packets of more than one connection state.

use vstd::prelude::*;

verus! {

/// Clears the dialog that the client shows.
#[derive(Clone, Debug)]
pub struct ClearDialogS2c {}

/// Shows a dialog on the client.
#[derive(Clone, Debug)]
pub struct ShowDialogS2c {}

} // verus!
