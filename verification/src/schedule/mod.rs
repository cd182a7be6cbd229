//! Policies that decide which track plays next.

use crate::audio::Track;
use vstd::prelude::*;

pub mod requeue;

verus! {

/// A policy that names the next track on demand.
pub trait Schedule {
    /// Whether the policy can name a track.
    spec fn ready(&self) -> bool;

    /// The track to play next.
    fn next(&mut self) -> (track: Track)
        requires
            old(self).ready(),
        ensures
            final(self).ready(),
    ;
}

/// A schedule for trying things out: it names the same track every time.
pub struct Test;

impl Schedule for Test {
    open spec fn ready(&self) -> bool {
        true
    }

    fn next(&mut self) -> (track: Track)
        ensures
            track.title is Some && track.title->Some_0@ == "Very Cool Colorbass"@,
            track.subtitle is None,
            track.author is Some && track.author->Some_0@ == "IDK lol"@,
            track.source_url is None,
            track.background_url is None,
            track.audio_url@
                == "https://dl.dropboxusercontent.com/s/r48qj2ca1nqhm6w/My_Movie.mp3?dl=0"@,
    {
        Track {
            title: Some("Very Cool Colorbass".to_owned()),
            subtitle: None,
            author: Some("IDK lol".to_owned()),
            source_url: None,
            background_url: None,
            audio_url: "https://dl.dropboxusercontent.com/s/r48qj2ca1nqhm6w/My_Movie.mp3?dl=0".to_owned(),
        }
    }
}

} // verus!
