//! Media-player attributes.
//!
//! A plain data holder for the properties a media player reports.  The
//! core only routes raw change events and never interprets these
//! semantics; the holder exists for consumers that do.

use vstd::prelude::*;

verus! {

/// Attributes of one media player.
#[derive(Debug, Default)]
pub struct Player {
    browsable: bool,
    name: String,
    position: u64,
    repeat: bool,
    shuffle: bool,
    track: String,
}

} // verus!
