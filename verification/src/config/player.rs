//! The configuration of the player.
use std::collections::HashMap;
use vstd::prelude::*;

use crate::config::keys::find_large_index;
use crate::config::sections::{
    Audio, AudioView, Controller, Dmx, Midi, Section, StatusEvents, TrackMappings,
};
use crate::config::settings::{
    copy_value, get_mapping, get_section, get_section_list, get_text, read_keys,
    read_yaml,
};
use crate::text::copy_optional_text;

verus! {

/// The configuration of the player.
pub struct Player {
    controllers: Option<Vec<Controller>>,
    audio: Audio,
    track_mappings: TrackMappings,
    midi: Option<Midi>,
    dmx: Option<Dmx>,
    status_events: Option<StatusEvents>,
    playlist: Option<String>,
    songs: String,
}

/// The configuration of the player, with texts as sequences. The sections of
/// the devices are the values that were read.
#[verifier::ext_equal]
pub struct PlayerView {
    pub controllers: Option<Seq<::config::Value>>,
    pub audio: AudioView,
    pub track_mappings: Map<Seq<char>, Seq<u16>>,
    pub midi: Option<::config::Value>,
    pub dmx: Option<::config::Value>,
    pub status_events: Option<::config::Value>,
    pub playlist: Option<Seq<char>>,
    pub songs: Seq<char>,
}

/// The values of a list of controllers.
pub open spec fn controller_values(controllers: Seq<Controller>) -> Seq<::config::Value> {
    controllers.map_values(|c: Controller| c.value)
}

/// The value of an optional MIDI section.
pub open spec fn midi_value(midi: Option<Midi>) -> Option<::config::Value> {
    match midi {
        Some(section) => Some(section.value),
        None => None,
    }
}

/// The value of an optional DMX section.
pub open spec fn dmx_value(dmx: Option<Dmx>) -> Option<::config::Value> {
    match dmx {
        Some(section) => Some(section.value),
        None => None,
    }
}

/// The value of an optional section of status events.
pub open spec fn status_events_value(status_events: Option<StatusEvents>) -> Option<::config::Value> {
    match status_events {
        Some(section) => Some(section.value),
        None => None,
    }
}

impl View for Player {
    type V = PlayerView;

    closed spec fn view(&self) -> PlayerView {
        PlayerView {
            controllers: match self.controllers {
                Some(list) => Some(controller_values(list@)),
                None => None,
            },
            audio: self.audio@,
            track_mappings: self.track_mappings.track_mappings.deep_view(),
            midi: midi_value(self.midi),
            dmx: dmx_value(self.dmx),
            status_events: status_events_value(self.status_events),
            playlist: crate::text::optional_text(self.playlist),
            songs: self.songs@,
        }
    }
}

impl PlayerView {
    /// The controllers, none where they are not configured.
    pub open spec fn controller_list(self) -> Seq<::config::Value> {
        match self.controllers {
            Some(list) => list,
            None => seq![],
        }
    }
}

/// Why a text is no configuration of the player.
pub enum DeserializeError {
    /// The text could not be read.
    Unreadable(::config::ConfigError),
    /// A key at the top has an index that no list can hold.
    LargeIndex(String),
    /// A setting is missing.
    Missing(String),
    /// A setting has the wrong form.
    Invalid(String, ::config::ConfigError),
}

/// The same, with texts as sequences.
pub enum DeserializeErrorView {
    Unreadable(::config::ConfigError),
    LargeIndex(Seq<char>),
    Missing(Seq<char>),
    Invalid(Seq<char>, ::config::ConfigError),
}

impl View for DeserializeError {
    type V = DeserializeErrorView;

    open spec fn view(&self) -> DeserializeErrorView {
        match self {
            DeserializeError::Unreadable(error) => DeserializeErrorView::Unreadable(*error),
            DeserializeError::LargeIndex(key) => DeserializeErrorView::LargeIndex(key@),
            DeserializeError::Missing(key) => DeserializeErrorView::Missing(key@),
            DeserializeError::Invalid(key, error) => DeserializeErrorView::Invalid(key@, *error),
        }
    }
}

/// A setting that may be missing.
pub open spec fn optional<T>(
    key: Seq<char>,
    read: Result<Option<T>, ::config::ConfigError>,
) -> Result<Option<T>, DeserializeErrorView> {
    match read {
        Ok(value) => Ok(value),
        Err(error) => Err(DeserializeErrorView::Invalid(key, error)),
    }
}

/// A setting that may not be missing.
pub open spec fn required<T>(
    key: Seq<char>,
    read: Result<Option<T>, ::config::ConfigError>,
) -> Result<T, DeserializeErrorView> {
    match read {
        Ok(Some(value)) => Ok(value),
        Ok(None) => Err(DeserializeErrorView::Missing(key)),
        Err(error) => Err(DeserializeErrorView::Invalid(key, error)),
    }
}

/// What was read of the settings of a player. A setting that is missing is read
/// as `None`.
pub struct PlayerSettings {
    pub device: Result<Option<String>, ::config::ConfigError>,
    pub playback_delay: Result<Option<String>, ::config::ConfigError>,
    pub track_mappings: Result<Option<HashMap<String, Vec<u16>>>, ::config::ConfigError>,
    pub songs: Result<Option<String>, ::config::ConfigError>,
    pub controllers: Result<Option<Vec<::config::Value>>, ::config::ConfigError>,
    pub midi: Result<Option<::config::Value>, ::config::ConfigError>,
    pub dmx: Result<Option<::config::Value>, ::config::ConfigError>,
    pub status_events: Result<Option<::config::Value>, ::config::ConfigError>,
    pub playlist: Result<Option<String>, ::config::ConfigError>,
}

/// The same, with texts as sequences.
pub struct PlayerSettingsView {
    pub device: Result<Option<Seq<char>>, ::config::ConfigError>,
    pub playback_delay: Result<Option<Seq<char>>, ::config::ConfigError>,
    pub track_mappings: Result<Option<Map<Seq<char>, Seq<u16>>>, ::config::ConfigError>,
    pub songs: Result<Option<Seq<char>>, ::config::ConfigError>,
    pub controllers: Result<Option<Seq<::config::Value>>, ::config::ConfigError>,
    pub midi: Result<Option<::config::Value>, ::config::ConfigError>,
    pub dmx: Result<Option<::config::Value>, ::config::ConfigError>,
    pub status_events: Result<Option<::config::Value>, ::config::ConfigError>,
    pub playlist: Result<Option<Seq<char>>, ::config::ConfigError>,
}

/// A text that was read, as a sequence.
pub open spec fn text_read(read: Result<Option<String>, ::config::ConfigError>) -> Result<
    Option<Seq<char>>,
    ::config::ConfigError,
> {
    match read {
        Ok(text) => Ok(crate::text::optional_text(text)),
        Err(error) => Err(error),
    }
}

/// A list that was read, as a sequence.
pub open spec fn list_read(read: Result<Option<Vec<::config::Value>>, ::config::ConfigError>) -> Result<
    Option<Seq<::config::Value>>,
    ::config::ConfigError,
> {
    match read {
        Ok(Some(list)) => Ok(Some(list@)),
        Ok(None) => Ok(None),
        Err(error) => Err(error),
    }
}

impl View for PlayerSettings {
    type V = PlayerSettingsView;

    open spec fn view(&self) -> PlayerSettingsView {
        PlayerSettingsView {
            device: text_read(self.device),
            playback_delay: text_read(self.playback_delay),
            track_mappings: match self.track_mappings {
                Ok(Some(mappings)) => Ok(Some(mappings.deep_view())),
                Ok(None) => Ok(None),
                Err(error) => Err(error),
            },
            songs: text_read(self.songs),
            controllers: list_read(self.controllers),
            midi: self.midi,
            dmx: self.dmx,
            status_events: self.status_events,
            playlist: text_read(self.playlist),
        }
    }
}

/// The settings of a player in a configuration.
pub open spec fn settings_in(config: ::config::Config) -> PlayerSettingsView {
    PlayerSettingsView {
        device: crate::config::settings::text_setting(config, "audio.device"@),
        playback_delay: crate::config::settings::text_setting(config, "audio.playback_delay"@),
        track_mappings: crate::config::settings::mapping_setting(config, "track_mappings"@),
        songs: crate::config::settings::text_setting(config, "songs"@),
        controllers: crate::config::settings::section_list_setting(config, "controllers"@),
        midi: crate::config::settings::section_setting(config, "midi"@),
        dmx: crate::config::settings::section_setting(config, "dmx"@),
        status_events: crate::config::settings::section_setting(config, "status_events"@),
        playlist: crate::config::settings::text_setting(config, "playlist"@),
    }
}

/// The configuration that settings describe: the audio device, the track mappings
/// and the songs have to be there, the rest may be missing. The first setting
/// that is at fault, in this order, is reported.
pub open spec fn player_of(settings: PlayerSettingsView) -> Result<
    PlayerView,
    DeserializeErrorView,
> {
    let device = required("audio.device"@, settings.device);
    let playback_delay = optional("audio.playback_delay"@, settings.playback_delay);
    let track_mappings = required("track_mappings"@, settings.track_mappings);
    let songs = required("songs"@, settings.songs);
    let controllers = optional("controllers"@, settings.controllers);
    let midi = optional("midi"@, settings.midi);
    let dmx = optional("dmx"@, settings.dmx);
    let status_events = optional("status_events"@, settings.status_events);
    let playlist = optional("playlist"@, settings.playlist);
    if device is Err {
        Err(device->Err_0)
    } else if playback_delay is Err {
        Err(playback_delay->Err_0)
    } else if track_mappings is Err {
        Err(track_mappings->Err_0)
    } else if songs is Err {
        Err(songs->Err_0)
    } else if controllers is Err {
        Err(controllers->Err_0)
    } else if midi is Err {
        Err(midi->Err_0)
    } else if dmx is Err {
        Err(dmx->Err_0)
    } else if status_events is Err {
        Err(status_events->Err_0)
    } else if playlist is Err {
        Err(playlist->Err_0)
    } else {
        Ok(
            PlayerView {
                controllers: controllers->Ok_0,
                audio: AudioView { device: device->Ok_0, playback_delay: playback_delay->Ok_0 },
                track_mappings: track_mappings->Ok_0,
                midi: midi->Ok_0,
                dmx: dmx->Ok_0,
                status_events: status_events->Ok_0,
                playlist: playlist->Ok_0,
                songs: songs->Ok_0,
            },
        )
    }
}

/// A configuration or why there is none, with texts as sequences.
pub open spec fn outcome(player: Result<Player, DeserializeError>) -> Result<
    PlayerView,
    DeserializeErrorView,
> {
    match player {
        Ok(p) => Ok(p@),
        Err(e) => Err(e@),
    }
}

/// Whether this is what a section is read as once its form is tested: a section
/// that is there is read as an error where the test gives one.
pub open spec fn section_tested<F: Fn(Section, &::config::Value) -> Result<
    (),
    ::config::ConfigError,
>>(
    form: F,
    section: Section,
    read: Result<Option<::config::Value>, ::config::ConfigError>,
    tested: Result<Option<::config::Value>, ::config::ConfigError>,
) -> bool {
    match (read, tested) {
        (Ok(Some(value)), Ok(_)) => tested == read && call_ensures(
            form,
            (section, &value),
            Ok::<(), ::config::ConfigError>(()),
        ),
        (Ok(Some(value)), Err(error)) => call_ensures(
            form,
            (section, &value),
            Err::<(), ::config::ConfigError>(error),
        ),
        _ => tested == read,
    }
}

/// Whether the forms of the first `count` controllers pass the test.
pub open spec fn controllers_pass<F: Fn(Section, &::config::Value) -> Result<
    (),
    ::config::ConfigError,
>>(form: F, values: Seq<::config::Value>, count: int) -> bool {
    forall|i: int|
        0 <= i < count ==> call_ensures(
            form,
            (Section::Controller, &#[trigger] values[i]),
            Ok::<(), ::config::ConfigError>(()),
        )
}

/// Whether the first controller whose form fails the test gives this error.
pub open spec fn first_failure<F: Fn(Section, &::config::Value) -> Result<
    (),
    ::config::ConfigError,
>>(form: F, values: Seq<::config::Value>, error: ::config::ConfigError) -> bool {
    exists|at: int|
        0 <= at < values.len() && call_ensures(
            form,
            (Section::Controller, &#[trigger] values[at]),
            Err::<(), ::config::ConfigError>(error),
        ) && controllers_pass(form, values, at)
}

/// Whether this is what the controllers are read as once their forms are tested,
/// one after the other: as an error where one of the tests gives it.
pub open spec fn controllers_tested<F: Fn(Section, &::config::Value) -> Result<
    (),
    ::config::ConfigError,
>>(
    form: F,
    read: Result<Option<Seq<::config::Value>>, ::config::ConfigError>,
    tested: Result<Option<Seq<::config::Value>>, ::config::ConfigError>,
) -> bool {
    match (read, tested) {
        (Ok(Some(values)), Ok(_)) => tested == read && controllers_pass(
            form,
            values,
            values.len() as int,
        ),
        (Ok(Some(values)), Err(error)) => first_failure(form, values, error),
        _ => tested == read,
    }
}

/// Whether this is what the settings are read as once the forms of the sections
/// are tested.
pub open spec fn settings_tested<F: Fn(Section, &::config::Value) -> Result<
    (),
    ::config::ConfigError,
>>(form: F, read: PlayerSettingsView, tested: PlayerSettingsView) -> bool {
    &&& tested.device == read.device
    &&& tested.playback_delay == read.playback_delay
    &&& tested.track_mappings == read.track_mappings
    &&& tested.songs == read.songs
    &&& tested.playlist == read.playlist
    &&& controllers_tested(form, read.controllers, tested.controllers)
    &&& section_tested(form, Section::Midi, read.midi, tested.midi)
    &&& section_tested(form, Section::Dmx, read.dmx, tested.dmx)
    &&& section_tested(form, Section::StatusEvents, read.status_events, tested.status_events)
}

/// Whether this comes of settings whose sections are tested.
pub open spec fn read_as<F: Fn(Section, &::config::Value) -> Result<(), ::config::ConfigError>>(
    form: F,
    settings: PlayerSettingsView,
    player: Result<PlayerView, DeserializeErrorView>,
) -> bool {
    exists|tested: PlayerSettingsView|
        #![trigger settings_tested(form, settings, tested)]
        settings_tested(form, settings, tested) && player == player_of(tested)
}

/// Whether this comes of a text, from its keys and from what was read of it.
pub open spec fn text_read_as<F: Fn(Section, &::config::Value) -> Result<
    (),
    ::config::ConfigError,
>>(
    form: F,
    keys: Result<Seq<Seq<char>>, ::config::ConfigError>,
    config: Result<::config::Config, ::config::ConfigError>,
    player: Result<PlayerView, DeserializeErrorView>,
) -> bool {
    match keys {
        Err(error) => player == Err::<PlayerView, _>(DeserializeErrorView::Unreadable(error)),
        Ok(keys) => match crate::config::keys::first_large_index(keys) {
            Some(key) => player == Err::<PlayerView, _>(DeserializeErrorView::LargeIndex(key)),
            None => match config {
                Err(error) => player == Err::<PlayerView, _>(
                    DeserializeErrorView::Unreadable(error),
                ),
                Ok(config) => read_as(form, settings_in(config), player),
            },
        },
    }
}

/// A section whose form fails every test that it is put to makes the settings
/// describe no player, whatever else they hold.
pub proof fn law_wrong_sections<F: Fn(Section, &::config::Value) -> Result<
    (),
    ::config::ConfigError,
>>(
    form: F,
    settings: PlayerSettingsView,
    player: Result<PlayerView, DeserializeErrorView>,
    value: ::config::Value,
)
    requires
        read_as(form, settings, player),
        (settings.midi == Ok::<_, ::config::ConfigError>(Some(value)) && !call_ensures(
            form,
            (Section::Midi, &value),
            Ok::<(), ::config::ConfigError>(()),
        )) || (settings.dmx == Ok::<_, ::config::ConfigError>(Some(value)) && !call_ensures(
            form,
            (Section::Dmx, &value),
            Ok::<(), ::config::ConfigError>(()),
        )) || (settings.status_events == Ok::<_, ::config::ConfigError>(Some(value))
            && !call_ensures(
            form,
            (Section::StatusEvents, &value),
            Ok::<(), ::config::ConfigError>(()),
        )) || (settings.controllers matches Ok(Some(values)) && values.contains(value)
            && !call_ensures(
            form,
            (Section::Controller, &value),
            Ok::<(), ::config::ConfigError>(()),
        )),
    ensures
        player is Err,
{
    let tested = choose|tested: PlayerSettingsView|
        #![trigger settings_tested(form, settings, tested)]
        settings_tested(form, settings, tested) && player == player_of(tested);
    if tested.controllers is Ok {
        match settings.controllers {
            Ok(Some(values)) => {
                assert(controllers_pass(form, values, values.len() as int));
            },
            _ => {},
        }
    }
    law_what_is_required(tested);
}

/// Settings describe a player exactly if the audio device, the track mappings and
/// the songs are there and no setting has the wrong form.
pub proof fn law_what_is_required(settings: PlayerSettingsView)
    ensures
        player_of(settings) is Ok <==> {
            &&& settings.device matches Ok(Some(_))
            &&& settings.track_mappings matches Ok(Some(_))
            &&& settings.songs matches Ok(Some(_))
            &&& settings.playback_delay is Ok
            &&& settings.controllers is Ok
            &&& settings.midi is Ok
            &&& settings.dmx is Ok
            &&& settings.status_events is Ok
            &&& settings.playlist is Ok
        },
{
}

/// A minimal configuration has no controllers and the default playback delay.
pub proof fn law_minimal_configuration<F: Fn(&str) -> Result<u64, String>>(
    settings: PlayerSettingsView,
    player: PlayerView,
    read: F,
    delay: Result<u64, String>,
)
    requires
        player_of(settings) == Ok::<_, DeserializeErrorView>(player),
        settings.playback_delay matches Ok(None),
        settings.controllers matches Ok(None),
        crate::config::sections::delay_read_as(read, player.audio.playback_delay, delay),
    ensures
        player.controller_list() == Seq::<::config::Value>::empty(),
        delay == Ok::<u64, String>(crate::config::sections::DEFAULT_AUDIO_PLAYBACK_DELAY),
{
}

/// A setting that may be missing.
fn optional_setting<T>(key: &str, read: Result<Option<T>, ::config::ConfigError>) -> (value: Result<
    Option<T>,
    DeserializeError,
>)
    ensures
        match read {
            Ok(r) => value == Ok::<_, DeserializeError>(r),
            Err(error) => value matches Err(e) && e@ == DeserializeErrorView::Invalid(key@, error),
        },
{
    match read {
        Ok(value) => Ok(value),
        Err(error) => Err(DeserializeError::Invalid(key.to_owned(), error)),
    }
}

/// A setting that may not be missing.
fn required_setting<T>(key: &str, read: Result<Option<T>, ::config::ConfigError>) -> (value: Result<
    T,
    DeserializeError,
>)
    ensures
        match read {
            Ok(Some(r)) => value == Ok::<_, DeserializeError>(r),
            Ok(None) => value matches Err(e) && e@ == DeserializeErrorView::Missing(key@),
            Err(error) => value matches Err(e) && e@ == DeserializeErrorView::Invalid(key@, error),
        },
{
    match read {
        Ok(Some(value)) => Ok(value),
        Ok(None) => Err(DeserializeError::Missing(key.to_owned())),
        Err(error) => Err(DeserializeError::Invalid(key.to_owned(), error)),
    }
}

impl PlayerSettings {
    /// Reads the settings of a player.
    pub fn read(config: &::config::Config) -> (settings: PlayerSettings)
        ensures
            settings@ == settings_in(*config),
    {
        PlayerSettings {
            device: get_text(config, "audio.device"),
            playback_delay: get_text(config, "audio.playback_delay"),
            track_mappings: get_mapping(config, "track_mappings"),
            songs: get_text(config, "songs"),
            controllers: get_section_list(config, "controllers"),
            midi: get_section(config, "midi"),
            dmx: get_section(config, "dmx"),
            status_events: get_section(config, "status_events"),
            playlist: get_text(config, "playlist"),
        }
    }
}

/// Tests the form of a section.
fn test_section<F: Fn(Section, &::config::Value) -> Result<(), ::config::ConfigError>>(
    form: &F,
    section: Section,
    read: Result<Option<::config::Value>, ::config::ConfigError>,
) -> (tested: Result<Option<::config::Value>, ::config::ConfigError>)
    requires
        forall|s: Section, v: &::config::Value| #[trigger] call_requires(*form, (s, v)),
    ensures
        section_tested(*form, section, read, tested),
{
    match read {
        Ok(Some(value)) => {
            let verdict: Result<(), ::config::ConfigError> = form(section, &value);
            assert(call_ensures(*form, (section, &value), verdict));
            match verdict {
                Ok(unit) => {
                    assert(unit == ());
                    Ok(Some(value))
                },
                Err(error) => Err(error),
            }
        },
        other => other,
    }
}

/// Tests the forms of the controllers.
fn test_controllers<F: Fn(Section, &::config::Value) -> Result<(), ::config::ConfigError>>(
    form: &F,
    read: Result<Option<Vec<::config::Value>>, ::config::ConfigError>,
) -> (tested: Result<Option<Vec<::config::Value>>, ::config::ConfigError>)
    requires
        forall|s: Section, v: &::config::Value| #[trigger] call_requires(*form, (s, v)),
    ensures
        controllers_tested(*form, list_read(read), list_read(tested)),
{
    let values: Vec<::config::Value> = match read {
        Ok(Some(values)) => values,
        other => {
            return other;
        },
    };
    for i in 0..values.len()
        invariant
            forall|s: Section, v: &::config::Value| #[trigger] call_requires(*form, (s, v)),
            list_read(read) == Ok::<_, ::config::ConfigError>(Some(values@)),
            controllers_pass(*form, values@, i as int),
    {
        let verdict: Result<(), ::config::ConfigError> = form(Section::Controller, &values[i]);
        assert(call_ensures(*form, (Section::Controller, &values@[i as int]), verdict));
        match verdict {
            Ok(unit) => {
                assert(unit == ());
            },
            Err(error) => {
                assert(first_failure(*form, values@, error));
                return Err(error);
            },
        }
    }
    Ok(Some(values))
}

impl PlayerSettings {
    /// Tests the forms of the sections: a section that is there is read as an error
    /// where the test gives one.
    pub fn test_sections<
        F: Fn(Section, &::config::Value) -> Result<(), ::config::ConfigError>,
    >(self, form: &F) -> (tested: PlayerSettings)
        requires
            forall|s: Section, v: &::config::Value| #[trigger] call_requires(*form, (s, v)),
        ensures
            settings_tested(*form, self@, tested@),
    {
        PlayerSettings {
            device: self.device,
            playback_delay: self.playback_delay,
            track_mappings: self.track_mappings,
            songs: self.songs,
            controllers: test_controllers(form, self.controllers),
            midi: test_section(form, Section::Midi, self.midi),
            dmx: test_section(form, Section::Dmx, self.dmx),
            status_events: test_section(form, Section::StatusEvents, self.status_events),
            playlist: self.playlist,
        }
    }
}

/// The controllers whose sections are these values.
fn controllers_of(values: Vec<::config::Value>) -> (controllers: Vec<Controller>)
    ensures
        controller_values(controllers@) == values@,
{
    let mut controllers: Vec<Controller> = Vec::new();
    for i in 0..values.len()
        invariant
            controllers@.len() == i,
            forall|j: int| 0 <= j < i ==> (#[trigger] controllers@[j]).value == values@[j],
    {
        controllers.push(Controller { value: copy_value(&values[i]) });
    }
    assert(controller_values(controllers@) =~= values@);
    controllers
}

impl Player {
    /// A configuration without a playlist.
    pub fn new(
        controllers: Vec<Controller>,
        audio: Audio,
        midi: Option<Midi>,
        dmx: Option<Dmx>,
        track_mappings: HashMap<String, Vec<u16>>,
        status_events: Option<StatusEvents>,
        songs: &str,
    ) -> (player: Player)
        ensures
            player@ == (PlayerView {
                controllers: Some(controller_values(controllers@)),
                audio: audio@,
                track_mappings: track_mappings.deep_view(),
                midi: midi_value(midi),
                dmx: dmx_value(dmx),
                status_events: status_events_value(status_events),
                playlist: None,
                songs: songs@,
            }),
    {
        Player {
            controllers: Some(controllers),
            audio,
            track_mappings: TrackMappings { track_mappings },
            midi,
            dmx,
            status_events,
            playlist: None,
            songs: songs.to_owned(),
        }
    }

    /// The configuration that settings describe.
    pub fn from_settings(settings: PlayerSettings) -> (player: Result<Player, DeserializeError>)
        ensures
            outcome(player) == player_of(settings@),
    {
        let device = required_setting("audio.device", settings.device)?;
        let playback_delay = optional_setting("audio.playback_delay", settings.playback_delay)?;
        let track_mappings = required_setting("track_mappings", settings.track_mappings)?;
        let songs = required_setting("songs", settings.songs)?;
        let controllers = match optional_setting("controllers", settings.controllers)? {
            Some(values) => Some(controllers_of(values)),
            None => None,
        };
        let midi = match optional_setting("midi", settings.midi)? {
            Some(value) => Some(Midi { value }),
            None => None,
        };
        let dmx = match optional_setting("dmx", settings.dmx)? {
            Some(value) => Some(Dmx { value }),
            None => None,
        };
        let status_events = match optional_setting("status_events", settings.status_events)? {
            Some(value) => Some(StatusEvents { value }),
            None => None,
        };
        let playlist = optional_setting("playlist", settings.playlist)?;
        Ok(
            Player {
                controllers,
                audio: Audio::with_playback_delay(device, playback_delay),
                track_mappings: TrackMappings { track_mappings },
                midi,
                dmx,
                status_events,
                playlist,
                songs,
            },
        )
    }

    /// The configuration in what was read of a file. The forms of the sections that
    /// depend on the devices are tested.
    pub fn from_config<
        F: Fn(Section, &::config::Value) -> Result<(), ::config::ConfigError>,
    >(config: &::config::Config, form: &F) -> (player: Result<Player, DeserializeError>)
        requires
            forall|s: Section, v: &::config::Value| #[trigger] call_requires(*form, (s, v)),
        ensures
            read_as(*form, settings_in(*config), outcome(player)),
    {
        let tested = PlayerSettings::read(config).test_sections(form);
        let player = Player::from_settings(tested);
        assert(settings_tested(*form, settings_in(*config), tested@));
        player
    }

    /// The configuration in a YAML text. The forms of the sections that depend on
    /// the devices are tested.
    pub fn deserialize<
        F: Fn(Section, &::config::Value) -> Result<(), ::config::ConfigError>,
    >(text: &str, form: &F) -> (player: Result<Player, DeserializeError>)
        requires
            forall|s: Section, v: &::config::Value| #[trigger] call_requires(*form, (s, v)),
        ensures
            text_read_as(
                *form,
                crate::config::settings::top_keys(text@),
                crate::config::settings::yaml_settings(text@),
                outcome(player),
            ),
    {
        let keys: Vec<String> = match read_keys(text) {
            Ok(keys) => keys,
            Err(error) => {
                return Err(DeserializeError::Unreadable(error));
            },
        };
        match find_large_index(&keys) {
            Some(key) => {
                return Err(DeserializeError::LargeIndex(key));
            },
            None => {},
        }
        match read_yaml(text) {
            Ok(config) => Player::from_config(&config, form),
            Err(error) => Err(DeserializeError::Unreadable(error)),
        }
    }

    /// The controllers.
    pub fn controllers(&self) -> (controllers: Vec<Controller>)
        ensures
            controller_values(controllers@) == self@.controller_list(),
    {
        let mut controllers: Vec<Controller> = Vec::new();
        match &self.controllers {
            Some(list) => {
                for i in 0..list.len()
                    invariant
                        controllers@ == list@.take(i as int),
                {
                    controllers.push(list[i].clone());
                }
                assert(controllers@ == list@);
            },
            None => {
                assert(controller_values(controllers@) =~= seq![]);
            },
        }
        controllers
    }

    /// The audio section.
    pub fn audio(&self) -> (audio: Audio)
        ensures
            audio@ == self@.audio,
    {
        self.audio.clone()
    }

    /// Which output channels each track goes to.
    pub fn track_mappings(&self) -> (track_mappings: &HashMap<String, Vec<u16>>)
        ensures
            track_mappings.deep_view() == self@.track_mappings,
    {
        &self.track_mappings.track_mappings
    }

    /// The MIDI section.
    pub fn midi(&self) -> (midi: Option<Midi>)
        ensures
            midi_value(midi) == self@.midi,
    {
        match &self.midi {
            Some(midi) => Some(midi.clone()),
            None => None,
        }
    }

    /// The DMX section.
    pub fn dmx(&self) -> (dmx: Option<&Dmx>)
        ensures
            match dmx {
                Some(section) => self@.dmx == Some(section.value),
                None => self@.dmx is None,
            },
    {
        match &self.dmx {
            Some(dmx) => Some(dmx),
            None => None,
        }
    }

    /// The events that report the status.
    pub fn status_events(&self) -> (status_events: Option<StatusEvents>)
        ensures
            status_events_value(status_events) == self@.status_events,
    {
        match &self.status_events {
            Some(status_events) => Some(status_events.clone()),
            None => None,
        }
    }

    /// The path of the playlist.
    pub fn playlist(&self) -> (playlist: Option<String>)
        ensures
            crate::text::optional_text(playlist) == self@.playlist,
    {
        copy_optional_text(&self.playlist)
    }

    /// Where the song definitions are: the configured path, taken from the
    /// directory that the player's configuration file lies in.
    pub fn songs(&self, player_path: &str) -> (path: String)
        ensures
            path@ == crate::path::resolved(player_path@, self@.songs),
    {
        crate::path::resolve(player_path, self.songs.as_str())
    }
}

} // verus!
