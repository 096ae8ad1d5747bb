//! Plain data types for shows and episodes shared with the application.

use vstd::prelude::*;
use vstd::string::{StrSliceExecFns, StringExecFns};

verus! {

/// A show's identity: enough to navigate to it and to label it.
#[derive(Clone, Debug, Eq, PartialEq, Hash)]
pub struct ShowLink {
    pub id: String,
    pub name: String,
}

impl ShowLink {
    /// The public web address of the show: the fixed prefix followed by
    /// the show's id.
    pub fn url(&self) -> (r: String)
        ensures
            r@ == "https://open.spotify.com/show/"@ + self.id@,
    {
        let mut s = "https://open.spotify.com/show/".to_owned();
        s.append(self.id.as_str());
        s
    }
}

/// How far into an episode the listener got.
#[derive(Clone, Copy, Debug, PartialEq, Eq)]
pub struct ResumePoint {
    pub fully_played: bool,
    /// Position to resume from, in milliseconds.
    pub resume_position: u64,
}

/// An episode's identifier within the service's id space.
#[derive(Clone, Copy, Default, PartialEq, Eq, Debug, Hash)]
pub struct EpisodeId(pub u128);

} // verus!
