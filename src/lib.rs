//! Assembly of replay bundles from recorded game sessions: the packed
//! timestamp fields, the handle count, the thumbnail canvas, the template
//! rendering and the plan of writes that places the four artifacts.
use vstd::prelude::*;

pub mod bundle;
pub mod canvas;
pub mod error;
pub mod handle;
pub mod template;
pub mod text;
pub mod timestamp;

verus! {

/// The events that the interactive front end hands to its update step.
#[derive(Debug, Clone)]
pub enum Message {
    BrowseTF2Dir,
    BrowseDemoPath,
    BrowseThumbnailPath,
    ClearThumbnail,
    CreateReplay,
    SetReplayName(String),
}

} // verus!
