//! Small shared value types used by the editor's caller: outcomes of an
//! editor pass, widget responses, and the repaint-request event marker.

use vstd::prelude::*;

verus! {

/// What an editor pass asks its caller to do next.
pub enum EditorResult {
    Nothing,
    LoadNewImage,
}

/// How a modifier widget reacted to user input.
#[derive(PartialEq, Eq, Structural, Debug)]
pub enum ModifierResponse {
    Nothing,
    Selected,
    Changed,
}

/// Event posted to the interactive loop to ask for a repaint.
pub struct RequestRepaintEvent;

} // verus!
