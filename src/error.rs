//! Why the assembly of a bundle stopped.
use vstd::prelude::*;

verus! {

/// The failures that stop a bundle before anything is written.
#[derive(Debug, Clone, PartialEq, Eq)]
pub enum ReplayError {
    /// No demo header was read successfully.
    NoValidDemo,
    /// No installation folder was chosen.
    NoInstallDir,
    /// No demo file was chosen.
    NoDemoFile,
    /// The demo's header could not be read.
    DemoHeaderUnreadable,
    /// The clock gave a year that the packed date cannot hold.
    UnsupportedYear(i32),
    /// The replay name leaves nothing once made safe for file names.
    EmptyName,
    /// An artifact of that name already stands at its destination.
    NameTaken,
    /// The thumbnail bytes could not be decoded as an image.
    ThumbnailUnreadable,
}

} // verus!
