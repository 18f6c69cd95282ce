//! The sections of the player's configuration.
use std::collections::HashMap;
use vstd::prelude::*;

use crate::config::settings::copy_value;
use crate::text::copy_optional_text;

verus! {

/// The delay before a song is played, in nanoseconds, where none is configured.
pub const DEFAULT_AUDIO_PLAYBACK_DELAY: u64 = 0;

/// The audio section.
pub struct Audio {
    /// The name of the audio device.
    device: String,
    /// The delay before a song is played, if it is configured.
    playback_delay: Option<String>,
}

/// The audio section, with texts as sequences.
pub struct AudioView {
    pub device: Seq<char>,
    pub playback_delay: Option<Seq<char>>,
}

impl View for Audio {
    type V = AudioView;

    closed spec fn view(&self) -> AudioView {
        AudioView {
            device: self.device@,
            playback_delay: crate::text::optional_text(self.playback_delay),
        }
    }
}

/// Whether this is the delay before a song is played, in nanoseconds: what is made
/// of the configured text, and the default where none is configured.
pub open spec fn delay_read_as<F: Fn(&str) -> Result<u64, String>>(
    read: F,
    configured: Option<Seq<char>>,
    delay: Result<u64, String>,
) -> bool {
    match configured {
        Some(text) => exists|t: &str|
            t@ == text && #[trigger] call_ensures(read, (t,), delay),
        None => delay == Ok::<u64, String>(DEFAULT_AUDIO_PLAYBACK_DELAY),
    }
}

impl Audio {
    /// An audio section that names a device and nothing else.
    pub fn new(device: &str) -> (audio: Audio)
        ensures
            audio@ == (AudioView { device: device@, playback_delay: None }),
    {
        Audio { device: device.to_owned(), playback_delay: None }
    }

    /// An audio section with all its settings.
    pub fn with_playback_delay(device: String, playback_delay: Option<String>) -> (audio: Audio)
        ensures
            audio@ == (AudioView {
                device: device@,
                playback_delay: crate::text::optional_text(playback_delay),
            }),
    {
        Audio { device, playback_delay }
    }

    /// The name of the audio device.
    pub fn device(&self) -> (device: String)
        ensures
            device@ == self@.device,
    {
        self.device.clone()
    }

    /// The delay before a song is played, in nanoseconds. A delay that is configured
    /// is a text that `read` makes sense of.
    pub fn playback_delay<F: Fn(&str) -> Result<u64, String>>(&self, read: F) -> (delay: Result<
        u64,
        String,
    >)
        requires
            forall|text: &str| #[trigger] call_requires(read, (text,)),
        ensures
            delay_read_as(read, self@.playback_delay, delay),
    {
        match &self.playback_delay {
            Some(text) => read(text.as_str()),
            None => Ok(DEFAULT_AUDIO_PLAYBACK_DELAY),
        }
    }
}

impl Clone for Audio {
    fn clone(&self) -> (copy: Self)
        ensures
            copy == *self,
    {
        Audio {
            device: self.device.clone(),
            playback_delay: copy_optional_text(&self.playback_delay),
        }
    }
}

/// A section whose form depends on the devices.
#[derive(Clone, Copy, Debug, PartialEq, Eq, Structural)]
pub enum Section {
    Controller,
    Midi,
    Dmx,
    StatusEvents,
}

/// A controller, as the value of its section.
pub struct Controller {
    pub value: ::config::Value,
}

impl Clone for Controller {
    fn clone(&self) -> (copy: Self)
        ensures
            copy == *self,
    {
        Controller { value: copy_value(&self.value) }
    }
}

/// The MIDI section, as its value.
pub struct Midi {
    pub value: ::config::Value,
}

impl Clone for Midi {
    fn clone(&self) -> (copy: Self)
        ensures
            copy == *self,
    {
        Midi { value: copy_value(&self.value) }
    }
}

/// The DMX section, as its value.
pub struct Dmx {
    pub value: ::config::Value,
}

/// The section of the events that report the status, as its value.
pub struct StatusEvents {
    pub value: ::config::Value,
}

impl Clone for StatusEvents {
    fn clone(&self) -> (copy: Self)
        ensures
            copy == *self,
    {
        StatusEvents { value: copy_value(&self.value) }
    }
}

/// Which output channels each track goes to.
pub struct TrackMappings {
    pub track_mappings: HashMap<String, Vec<u16>>,
}

} // verus!
