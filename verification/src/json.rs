//! The shared name for what the JSON decoder accepts.
//!
//! Inbound frames and REST response bodies arrive as JSON text; decoding
//! them is delegated to serde_json behind trusted readers in the frame and
//! channel modules. Whether a text is accepted at all is a function of the
//! text alone, so it carries one shared name, which every trusted reader's
//! contract applies.

use vstd::prelude::*;

verus! {

/// `s` is a text that the JSON decoder accepts as one document.
pub uninterp spec fn is_json(s: Seq<char>) -> bool;

} // verus!
