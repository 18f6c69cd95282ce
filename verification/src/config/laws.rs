//! What holds of the configuration and of the songs, setting by setting and song by
//! song.
use std::collections::HashMap;
use vstd::prelude::*;

use crate::config::player::{
    DeserializeError, DeserializeErrorView, Player, PlayerSettings, PlayerSettingsView, PlayerView,
};
use crate::config::sections::{Controller, Dmx, Midi, Section, StatusEvents};
use crate::config::songs::{
    DirEntry, Song, SongConfig, SongDocument, SongView, SongsError, SongsErrorView,
};

verus! {

/// Where settings describe a player, each of its fields is what was read of the
/// setting of that name, and of no other.
pub proof fn law_fields_of_a_player(settings: PlayerSettingsView, player: PlayerView)
    requires
        crate::config::player::player_of(settings) == Ok::<PlayerView, DeserializeErrorView>(
            player,
        ),
    ensures
        settings.device == Ok::<_, ::config::ConfigError>(Some(player.audio.device)),
        settings.playback_delay == Ok::<_, ::config::ConfigError>(player.audio.playback_delay),
        settings.track_mappings == Ok::<_, ::config::ConfigError>(Some(player.track_mappings)),
        settings.songs == Ok::<_, ::config::ConfigError>(Some(player.songs)),
        settings.controllers == Ok::<_, ::config::ConfigError>(player.controllers),
        settings.midi == Ok::<_, ::config::ConfigError>(player.midi),
        settings.dmx == Ok::<_, ::config::ConfigError>(player.dmx),
        settings.status_events == Ok::<_, ::config::ConfigError>(player.status_events),
        settings.playlist == Ok::<_, ::config::ConfigError>(player.playlist),
{
}

/// Where settings describe no player, the first setting at fault is named: one that
/// has to be there and is not as missing, one of the wrong form with its error.
pub proof fn law_first_fault(settings: PlayerSettingsView, error: ::config::ConfigError)
    ensures
        ({
            let described = crate::config::player::player_of(settings);
            let device = settings.device matches Ok(Some(_));
            let delay = device && settings.playback_delay is Ok;
            let mappings = delay && (settings.track_mappings matches Ok(Some(_)));
            let songs = mappings && (settings.songs matches Ok(Some(_)));
            let controllers = songs && settings.controllers is Ok;
            let midi = controllers && settings.midi is Ok;
            let dmx = midi && settings.dmx is Ok;
            let events = dmx && settings.status_events is Ok;
            &&& settings.device matches Ok(None) ==> described == Err::<PlayerView, _>(
                DeserializeErrorView::Missing("audio.device"@),
            )
            &&& settings.device == Err::<Option<Seq<char>>, _>(error) ==> described == Err::<
                PlayerView,
                _,
            >(DeserializeErrorView::Invalid("audio.device"@, error))
            &&& device && settings.playback_delay == Err::<Option<Seq<char>>, _>(error)
                ==> described == Err::<PlayerView, _>(
                DeserializeErrorView::Invalid("audio.playback_delay"@, error),
            )
            &&& delay && (settings.track_mappings matches Ok(None)) ==> described == Err::<
                PlayerView,
                _,
            >(DeserializeErrorView::Missing("track_mappings"@))
            &&& delay && settings.track_mappings == Err::<Option<Map<Seq<char>, Seq<u16>>>, _>(
                error,
            ) ==> described == Err::<PlayerView, _>(
                DeserializeErrorView::Invalid("track_mappings"@, error),
            )
            &&& mappings && (settings.songs matches Ok(None)) ==> described == Err::<
                PlayerView,
                _,
            >(DeserializeErrorView::Missing("songs"@))
            &&& mappings && settings.songs == Err::<Option<Seq<char>>, _>(error) ==> described
                == Err::<PlayerView, _>(DeserializeErrorView::Invalid("songs"@, error))
            &&& songs && settings.controllers == Err::<Option<Seq<::config::Value>>, _>(error)
                ==> described == Err::<PlayerView, _>(
                DeserializeErrorView::Invalid("controllers"@, error),
            )
            &&& controllers && settings.midi == Err::<Option<::config::Value>, _>(error)
                ==> described == Err::<PlayerView, _>(DeserializeErrorView::Invalid("midi"@, error))
            &&& midi && settings.dmx == Err::<Option<::config::Value>, _>(error) ==> described
                == Err::<PlayerView, _>(DeserializeErrorView::Invalid("dmx"@, error))
            &&& dmx && settings.status_events == Err::<Option<::config::Value>, _>(error)
                ==> described == Err::<PlayerView, _>(
                DeserializeErrorView::Invalid("status_events"@, error),
            )
            &&& events && settings.playlist == Err::<Option<Seq<char>>, _>(error) ==> described
                == Err::<PlayerView, _>(DeserializeErrorView::Invalid("playlist"@, error))
            &&& events && settings.playlist is Ok ==> described is Ok
        }),
{
}

/// Every setting of a player is read under its own key.
pub proof fn law_keys_of_settings(config: ::config::Config)
    ensures
        ({
            let settings = crate::config::player::settings_in(config);
            &&& settings.device == crate::config::settings::text_setting(config, "audio.device"@)
            &&& settings.playback_delay == crate::config::settings::text_setting(
                config,
                "audio.playback_delay"@,
            )
            &&& settings.track_mappings == crate::config::settings::mapping_setting(
                config,
                "track_mappings"@,
            )
            &&& settings.songs == crate::config::settings::text_setting(config, "songs"@)
            &&& settings.controllers == crate::config::settings::section_list_setting(
                config,
                "controllers"@,
            )
            &&& settings.midi == crate::config::settings::section_setting(config, "midi"@)
            &&& settings.dmx == crate::config::settings::section_setting(config, "dmx"@)
            &&& settings.status_events == crate::config::settings::section_setting(
                config,
                "status_events"@,
            )
            &&& settings.playlist == crate::config::settings::text_setting(config, "playlist"@)
        }),
{
}

/// Settings say what was read of each, whether it is there, missing or wrong.
pub proof fn law_settings_read(
    settings: PlayerSettings,
    text: String,
    mappings: HashMap<String, Vec<u16>>,
    list: Vec<::config::Value>,
    error: ::config::ConfigError,
)
    ensures
        crate::config::player::text_read(Ok(Some(text))) == Ok::<_, ::config::ConfigError>(
            Some(text@),
        ),
        crate::config::player::text_read(Ok(None)) == Ok::<
            Option<Seq<char>>,
            ::config::ConfigError,
        >(None),
        crate::config::player::text_read(Err(error)) == Err::<Option<Seq<char>>, _>(error),
        crate::config::player::list_read(Ok(Some(list))) == Ok::<_, ::config::ConfigError>(
            Some(list@),
        ),
        crate::config::player::list_read(Ok(None)) == Ok::<
            Option<Seq<::config::Value>>,
            ::config::ConfigError,
        >(None),
        crate::config::player::list_read(Err(error)) == Err::<Option<Seq<::config::Value>>, _>(
            error,
        ),
        settings@.device == crate::config::player::text_read(settings.device),
        settings@.playback_delay == crate::config::player::text_read(settings.playback_delay),
        settings@.songs == crate::config::player::text_read(settings.songs),
        settings@.playlist == crate::config::player::text_read(settings.playlist),
        settings@.controllers == crate::config::player::list_read(settings.controllers),
        settings@.midi == settings.midi,
        settings@.dmx == settings.dmx,
        settings@.status_events == settings.status_events,
        settings.track_mappings == Ok::<_, ::config::ConfigError>(Some(mappings))
            ==> settings@.track_mappings == Ok::<_, ::config::ConfigError>(
            Some(mappings.deep_view()),
        ),
        settings.track_mappings matches Ok(None) ==> settings@.track_mappings matches Ok(None),
        settings.track_mappings == Err::<Option<HashMap<String, Vec<u16>>>, _>(error)
            ==> settings@.track_mappings == Err::<Option<Map<Seq<char>, Seq<u16>>>, _>(error),
{
}

/// A configuration or a fault says what it holds.
pub proof fn law_outcomes(
    player: Player,
    view: PlayerView,
    fault: DeserializeError,
    key: String,
    error: ::config::ConfigError,
)
    ensures
        crate::config::player::outcome(Ok(player)) == Ok::<_, DeserializeErrorView>(player@),
        crate::config::player::outcome(Err(fault)) == Err::<PlayerView, _>(fault@),
        DeserializeError::Unreadable(error)@ == DeserializeErrorView::Unreadable(error),
        DeserializeError::LargeIndex(key)@ == DeserializeErrorView::LargeIndex(key@),
        DeserializeError::Missing(key)@ == DeserializeErrorView::Missing(key@),
        DeserializeError::Invalid(key, error)@ == DeserializeErrorView::Invalid(key@, error),
        view.controllers matches Some(list) ==> view.controller_list() == list,
        view.controllers is None ==> view.controller_list().len() == 0,
{
}

/// A section is the value that it holds, and a list of controllers has theirs in
/// order.
pub proof fn law_section_values(
    controllers: Seq<Controller>,
    midi: Midi,
    dmx: Dmx,
    events: StatusEvents,
)
    ensures
        crate::config::player::controller_values(controllers).len() == controllers.len(),
        forall|i: int|
            0 <= i < controllers.len() ==> #[trigger] crate::config::player::controller_values(
                controllers,
            )[i] == controllers[i].value,
        crate::config::player::midi_value(Some(midi)) == Some(midi.value),
        crate::config::player::midi_value(None) is None,
        crate::config::player::dmx_value(Some(dmx)) == Some(dmx.value),
        crate::config::player::dmx_value(None) is None,
        crate::config::player::status_events_value(Some(events)) == Some(events.value),
        crate::config::player::status_events_value(None) is None,
{
}

/// Testing the forms of sections changes nothing but the sections that fail: they
/// are read as the error that the test gave. Of the controllers the first that fails
/// decides.
pub proof fn law_tested_sections<F: Fn(Section, &::config::Value) -> Result<
    (),
    ::config::ConfigError,
>>(form: F, read: PlayerSettingsView, tested: PlayerSettingsView)
    requires
        crate::config::player::settings_tested(form, read, tested),
    ensures
        tested.device == read.device,
        tested.playback_delay == read.playback_delay,
        tested.track_mappings == read.track_mappings,
        tested.songs == read.songs,
        tested.playlist == read.playlist,
        tested.midi == read.midi || (read.midi matches Ok(Some(value)) && tested.midi matches Err(
            error,
        ) && call_ensures(form, (Section::Midi, &value), Err::<(), ::config::ConfigError>(error))),
        read.midi matches Ok(Some(value)) ==> tested.midi is Ok ==> call_ensures(
            form,
            (Section::Midi, &value),
            Ok::<(), ::config::ConfigError>(()),
        ),
        tested.dmx == read.dmx || (read.dmx matches Ok(Some(value)) && tested.dmx matches Err(error)
            && call_ensures(form, (Section::Dmx, &value), Err::<(), ::config::ConfigError>(error))),
        read.dmx matches Ok(Some(value)) ==> tested.dmx is Ok ==> call_ensures(
            form,
            (Section::Dmx, &value),
            Ok::<(), ::config::ConfigError>(()),
        ),
        tested.status_events == read.status_events || (read.status_events matches Ok(Some(value))
            && tested.status_events matches Err(error) && call_ensures(
            form,
            (Section::StatusEvents, &value),
            Err::<(), ::config::ConfigError>(error),
        )),
        read.status_events matches Ok(Some(value)) ==> tested.status_events is Ok ==> call_ensures(
            form,
            (Section::StatusEvents, &value),
            Ok::<(), ::config::ConfigError>(()),
        ),
        tested.controllers == read.controllers || (read.controllers matches Ok(Some(values))
            && tested.controllers matches Err(error) && exists|at: int|
            0 <= at < values.len() && call_ensures(
                form,
                (Section::Controller, &#[trigger] values[at]),
                Err::<(), ::config::ConfigError>(error),
            ) && forall|i: int|
                0 <= i < at ==> call_ensures(
                    form,
                    (Section::Controller, &#[trigger] values[i]),
                    Ok::<(), ::config::ConfigError>(()),
                )),
        read.controllers matches Ok(Some(values)) ==> tested.controllers is Ok ==> forall|i: int|
            0 <= i < values.len() ==> call_ensures(
                form,
                (Section::Controller, &#[trigger] values[i]),
                Ok::<(), ::config::ConfigError>(()),
            ),
{
    match (read.controllers, tested.controllers) {
        (Ok(Some(values)), Err(error)) => {
            assert(crate::config::player::first_failure(form, values, error));
            let at = choose|at: int|
                0 <= at < values.len() && call_ensures(
                    form,
                    (Section::Controller, &#[trigger] values[at]),
                    Err::<(), ::config::ConfigError>(error),
                ) && crate::config::player::controllers_pass(form, values, at);
            assert(crate::config::player::controllers_pass(form, values, at));
        },
        (Ok(Some(values)), Ok(_)) => {
            assert(crate::config::player::controllers_pass(form, values, values.len() as int));
        },
        _ => {},
    }
}

/// Where no test can fail, settings describe what they describe untested.
pub proof fn law_sections_of_the_right_form<F: Fn(Section, &::config::Value) -> Result<
    (),
    ::config::ConfigError,
>>(
    form: F,
    settings: PlayerSettingsView,
    player: Result<PlayerView, DeserializeErrorView>,
)
    requires
        crate::config::player::read_as(form, settings, player),
        forall|section: Section, value: &::config::Value, error: ::config::ConfigError|
            !#[trigger] call_ensures(
                form,
                (section, value),
                Err::<(), ::config::ConfigError>(error),
            ),
    ensures
        player == crate::config::player::player_of(settings),
{
    let tested = choose|tested: PlayerSettingsView|
        #![trigger crate::config::player::settings_tested(form, settings, tested)]
        crate::config::player::settings_tested(form, settings, tested) && player
            == crate::config::player::player_of(tested);
    law_tested_sections(form, settings, tested);
    assert(tested =~= settings);
}

/// What comes of a text: it is unreadable where its keys or its settings cannot be
/// read, refused for the first index that no list can hold, and otherwise what its
/// settings describe once the forms of the sections are tested.
pub proof fn law_texts_are_read<F: Fn(Section, &::config::Value) -> Result<
    (),
    ::config::ConfigError,
>>(
    form: F,
    keys: Seq<Seq<char>>,
    config: Result<::config::Config, ::config::ConfigError>,
    error: ::config::ConfigError,
    player: Result<PlayerView, DeserializeErrorView>,
)
    ensures
        crate::config::player::text_read_as(form, Err(error), config, player) ==> player == Err::<
            PlayerView,
            _,
        >(DeserializeErrorView::Unreadable(error)),
        crate::config::player::text_read_as(form, Ok(keys), config, player) && (exists|i: int|
            0 <= i < keys.len() && crate::config::keys::large_index(#[trigger] keys[i])) ==> (
        player matches Err(DeserializeErrorView::LargeIndex(key)) && keys.contains(key)
            && crate::config::keys::large_index(key)),
        crate::config::player::text_read_as(form, Ok(keys), config, player) && config == Err::<
            ::config::Config,
            _,
        >(error) && (forall|i: int|
            0 <= i < keys.len() ==> !crate::config::keys::large_index(#[trigger] keys[i]))
            ==> player == Err::<PlayerView, _>(DeserializeErrorView::Unreadable(error)),
        crate::config::player::text_read_as(form, Ok(keys), config, player) && config is Ok && (
        forall|i: int|
            0 <= i < keys.len() ==> !crate::config::keys::large_index(#[trigger] keys[i]))
            ==> exists|tested: PlayerSettingsView|
            #![trigger crate::config::player::settings_tested(
                form,
                crate::config::player::settings_in(config->Ok_0),
                tested,
            )]
            crate::config::player::settings_tested(
                form,
                crate::config::player::settings_in(config->Ok_0),
                tested,
            ) && player == crate::config::player::player_of(tested),
{
    crate::config::keys::law_first_large_index(keys);
    match crate::config::keys::first_large_index(keys) {
        Some(key) => {
            let i = choose|i: int|
                0 <= i < keys.len() && #[trigger] keys[i] == key
                    && crate::config::keys::large_index(keys[i]);
            assert(keys.contains(key));
        },
        None => {},
    }
    if config is Ok && crate::config::keys::first_large_index(keys) is None
        && crate::config::player::text_read_as(form, Ok(keys), config, player) {
        assert(crate::config::player::read_as(
            form,
            crate::config::player::settings_in(config->Ok_0),
            player,
        ));
    }
}

/// The delay before a song is played is what is made of the configured text, and
/// the default only where none is configured.
pub proof fn law_delays<F: Fn(&str) -> Result<u64, String>>(
    read: F,
    text: &str,
    delay: Result<u64, String>,
)
    ensures
        crate::config::sections::delay_read_as(read, None, delay) ==> delay == Ok::<u64, String>(0),
        call_ensures(read, (text,), delay) ==> crate::config::sections::delay_read_as(
            read,
            Some(text@),
            delay,
        ),
        crate::config::sections::delay_read_as(read, Some(text@), delay) ==> exists|t: &str|
            t@ == text@ && #[trigger] call_ensures(read, (t,), delay),
{
}

/// A song is its title, its definition and its file.
pub proof fn law_songs_say(song: Song, songs: Vec<Song>, text: String, fault: SongsError)
    ensures
        song@.name == song.name@,
        song@.definition == song.definition@,
        song@.song_file == song.song_file@,
        crate::config::songs::song_views(songs@).len() == songs@.len(),
        forall|i: int|
            0 <= i < songs@.len() ==> #[trigger] crate::config::songs::song_views(songs@)[i]
                == songs@[i]@,
        crate::config::songs::outcome(Ok(songs)) == Ok::<_, SongsErrorView>(
            crate::config::songs::song_views(songs@),
        ),
        crate::config::songs::outcome(Err(fault)) == Err::<Seq<SongView>, _>(fault@),
        SongsError::Document(text)@ == SongsErrorView::Document(text@),
        SongsError::File(text)@ == SongsErrorView::File(text@),
        SongsError::Conversion(text)@ == SongsErrorView::Conversion(text@),
{
}

/// The songs that a file configures are its documents in order, each with its
/// title, its definition and the path of the file.
pub proof fn law_configured_songs(
    documents: Seq<Result<SongDocument, String>>,
    file: Seq<char>,
    path: String,
)
    requires
        forall|i: int| 0 <= i < documents.len() ==> (#[trigger] documents[i]) is Ok,
    ensures
        crate::config::songs::configs_in_file(documents, file, Ok(path)) matches Ok(configs)
            && configs.len() == documents.len() && forall|i: int|
            0 <= i < documents.len() ==> (#[trigger] configs[i]).name == documents[i]->Ok_0.name
                && configs[i].definition == documents[i]->Ok_0.definition && configs[i].song_file
                == path,
{
    crate::config::songs::law_every_document_counts(documents, file, path);
}

/// A document that is no song is reported with the file and its fault; a file
/// without a canonical path is at fault once its first document is a song, and a
/// file without documents never is.
pub proof fn law_faulty_files(
    documents: Seq<Result<SongDocument, String>>,
    file: Seq<char>,
    canonical: Result<String, String>,
    at: int,
)
    ensures
        documents.len() == 0 ==> crate::config::songs::configs_in_file(documents, file, canonical)
            == Ok::<Seq<SongConfig>, SongsErrorView>(seq![]),
        documents.len() > 0 && documents[0] is Ok && canonical is Err
            ==> crate::config::songs::configs_in_file(documents, file, canonical) == Err::<
            Seq<SongConfig>,
            _,
        >(SongsErrorView::File(canonical->Err_0@)),
        documents.len() > 0 && documents[0] is Err ==> crate::config::songs::configs_in_file(
            documents,
            file,
            canonical,
        ) == Err::<Seq<SongConfig>, _>(
            SongsErrorView::Document(
                "error parsing file "@ + file + ": "@ + documents[0]->Err_0@,
            ),
        ),
        canonical is Ok && 0 <= at < documents.len() && documents[at] is Err && (forall|i: int|
            0 <= i < at ==> (#[trigger] documents[i]) is Ok)
            ==> crate::config::songs::configs_in_file(documents, file, canonical) == Err::<
            Seq<SongConfig>,
            _,
        >(
            SongsErrorView::Document(
                "error parsing file "@ + file + ": "@ + documents[at]->Err_0@,
            ),
        ),
{
    if documents.len() > 0 && (documents[0] is Err || canonical is Err) {
        lemma_first_document(documents, file, canonical);
    }
    if canonical is Ok && 0 <= at < documents.len() && documents[at] is Err && forall|i: int|
        0 <= i < at ==> (#[trigger] documents[i]) is Ok {
        crate::config::songs::law_first_faulty_document(documents, file, canonical->Ok_0, at);
    }
}

proof fn lemma_first_document(
    documents: Seq<Result<SongDocument, String>>,
    file: Seq<char>,
    canonical: Result<String, String>,
)
    requires
        documents.len() > 0,
        documents[0] is Err || canonical is Err,
    ensures
        documents[0] is Ok ==> crate::config::songs::configs_in_file(documents, file, canonical)
            == Err::<Seq<SongConfig>, _>(SongsErrorView::File(canonical->Err_0@)),
        documents[0] is Err ==> crate::config::songs::configs_in_file(documents, file, canonical)
            == Err::<Seq<SongConfig>, _>(
            SongsErrorView::Document(
                "error parsing file "@ + file + ": "@ + documents[0]->Err_0@,
            ),
        ),
    decreases documents.len(),
{
    if documents.len() == 1 {
        assert(documents.drop_last() =~= seq![]);
        assert(crate::config::songs::configs_in_file(documents.drop_last(), file, canonical)
            == Ok::<Seq<SongConfig>, SongsErrorView>(seq![]));
    } else {
        assert(documents.drop_last()[0] == documents[0]);
        lemma_first_document(documents.drop_last(), file, canonical);
    }
}

/// Whether converting a configuration may give a song of which this is all.
pub open spec fn may_give<F: Fn(&SongConfig) -> Result<Song, String>>(
    convert: F,
    config: SongConfig,
    view: SongView,
) -> bool {
    exists|song: Song| #[trigger]
        call_ensures(convert, (&config,), Ok::<Song, String>(song)) && song.name@ == view.name
            && song.definition@ == view.definition && song.song_file@ == view.song_file
}

/// Whether converting a configuration may give a song.
pub open spec fn may_succeed<F: Fn(&SongConfig) -> Result<Song, String>>(
    convert: F,
    config: SongConfig,
) -> bool {
    exists|song: Song| #[trigger] call_ensures(convert, (&config,), Ok::<Song, String>(song))
}

/// Whether converting a configuration may fail with this fault.
pub open spec fn may_fail<F: Fn(&SongConfig) -> Result<Song, String>>(
    convert: F,
    config: SongConfig,
    fault: SongsErrorView,
) -> bool {
    exists|message: String| #[trigger]
        call_ensures(convert, (&config,), Err::<Song, String>(message)) && fault
            == SongsErrorView::Conversion(message@)
}

/// Songs that come of a file are as many as it configures, each what converting the
/// configuration in its place gave.
pub proof fn law_converted_songs<F: Fn(&SongConfig) -> Result<Song, String>>(
    convert: F,
    configs: Seq<SongConfig>,
    songs: Seq<SongView>,
)
    requires
        crate::config::songs::converts_to(
            convert,
            configs,
            Ok::<Seq<SongView>, SongsErrorView>(songs),
        ),
    ensures
        songs.len() == configs.len(),
        forall|i: int| 0 <= i < songs.len() ==> may_give(convert, configs[i], #[trigger] songs[i]),
{
    let conversions = choose|conversions: Seq<Result<Song, String>>|
        #![trigger crate::config::songs::conversions_of(convert, configs, conversions)]
        crate::config::songs::conversions_of(convert, configs, conversions) && Ok::<
            Seq<SongView>,
            SongsErrorView,
        >(songs) == crate::config::songs::converted(conversions);
    crate::config::songs::law_first_failed_conversion(conversions);
    if conversions.len() < configs.len() {
        assert(conversions[conversions.len() - 1] is Ok);
    }
    assert forall|i: int| 0 <= i < songs.len() implies may_give(
        convert,
        configs[i],
        #[trigger] songs[i],
    ) by {
        assert(conversions[i] is Ok);
        let song = conversions[i]->Ok_0;
        assert(conversions[i] == Ok::<Song, String>(song));
        assert(call_ensures(convert, (&configs[i],), Ok::<Song, String>(song)));
    }
}

/// A fault of a conversion is that of the first configuration that cannot be
/// converted.
pub proof fn law_failed_conversion<F: Fn(&SongConfig) -> Result<Song, String>>(
    convert: F,
    configs: Seq<SongConfig>,
    fault: SongsErrorView,
)
    requires
        crate::config::songs::converts_to(
            convert,
            configs,
            Err::<Seq<SongView>, SongsErrorView>(fault),
        ),
    ensures
        exists|at: int|
            0 <= at < configs.len() && may_fail(convert, #[trigger] configs[at], fault) && (forall|
                i: int,
            |
                0 <= i < at ==> may_succeed(convert, #[trigger] configs[i])),
{
    let conversions = choose|conversions: Seq<Result<Song, String>>|
        #![trigger crate::config::songs::conversions_of(convert, configs, conversions)]
        crate::config::songs::conversions_of(convert, configs, conversions) && Err::<
            Seq<SongView>,
            SongsErrorView,
        >(fault) == crate::config::songs::converted(conversions);
    crate::config::songs::law_first_failed_conversion(conversions);
    let at = choose|at: int|
        0 <= at < conversions.len() && (#[trigger] conversions[at]) is Err && fault
            == SongsErrorView::Conversion(conversions[at]->Err_0@) && (forall|i: int|
            0 <= i < at ==> (#[trigger] conversions[i]) is Ok);
    let message = conversions[at]->Err_0;
    assert(conversions[at] == Err::<Song, String>(message));
    assert(call_ensures(convert, (&configs[at],), Err::<Song, String>(message)));
    assert(may_fail(convert, configs[at], fault));
    assert forall|i: int| 0 <= i < at implies may_succeed(convert, #[trigger] configs[i]) by {
        assert(conversions[i] is Ok);
        let song = conversions[i]->Ok_0;
        assert(conversions[i] == Ok::<Song, String>(song));
        assert(call_ensures(convert, (&configs[i],), Ok::<Song, String>(song)));
    }
}

/// Of the songs that are added the last one of a title is held, whole, and a song of
/// another title that was there before stays.
pub proof fn law_added_songs(
    songs: Map<Seq<char>, SongView>,
    others: Seq<SongView>,
    name: Seq<char>,
    at: int,
)
    ensures
        0 <= at < others.len() && others[at].name == name && (forall|i: int|
            at < i < others.len() ==> (#[trigger] others[i]).name != name)
            ==> crate::config::songs::added(songs, others).dom().contains(name)
            && crate::config::songs::added(songs, others)[name] == others[at],
        (forall|i: int| 0 <= i < others.len() ==> (#[trigger] others[i]).name != name) ==> (
        crate::config::songs::added(songs, others).dom().contains(name) <==> songs.dom().contains(
            name,
        )) && (songs.dom().contains(name) ==> crate::config::songs::added(songs, others)[name]
            == songs[name]),
    decreases others.len(),
{
    if others.len() > 0 {
        let front = others.drop_last();
        if others.last().name == name {
            assert(others[others.len() - 1].name == name);
        } else {
            law_added_songs(songs, front, name, at);
            if 0 <= at < others.len() && others[at].name == name {
                assert(at < front.len());
                assert(front[at] == others[at]);
            }
            if forall|i: int| 0 <= i < others.len() ==> (#[trigger] others[i]).name != name {
                assert forall|i: int| 0 <= i < front.len() implies (#[trigger] front[i]).name
                    != name by {
                    assert(front[i] == others[i]);
                }
            }
            if 0 <= at < others.len() && others[at].name == name && forall|i: int|
                at < i < others.len() ==> (#[trigger] others[i]).name != name {
                assert forall|i: int| at < i < front.len() implies (#[trigger] front[i]).name
                    != name by {
                    assert(front[i] == others[i]);
                }
            }
        }
    }
}

/// No two songs of a list of distinct titles have the same one.
pub proof fn law_distinct_titles(songs: Seq<SongView>, a: int, b: int)
    requires
        crate::config::songs::distinct_titles(songs),
        0 <= a < songs.len(),
        0 <= b < songs.len(),
        songs[a].name == songs[b].name,
    ensures
        a == b,
{
    if a < b {
        assert(songs[a].name != songs[b].name);
    } else if b < a {
        assert(songs[b].name != songs[a].name);
    }
}

/// A file that is listed last in a directory, and whose extension is that of song
/// files, decides of the titles in it: the last song of a title in the file is
/// found, with its title, its definition and its file.
pub proof fn law_last_file_decides(
    entries: Seq<DirEntry>,
    entry: DirEntry,
    extension: String,
    list: Vec<Song>,
    at: int,
)
    requires
        entry.extension == Some(extension),
        extension@ == "yaml"@ || extension@ == "yml"@,
        entry.songs == Some(list),
        0 <= at < list@.len(),
        forall|i: int|
            at < i < list@.len() ==> (#[trigger] list@[i]).name@ != list@[at].name@,
    ensures
        ({
            let found = crate::config::songs::songs_under(entries.push(entry));
            let title = list@[at].name@;
            &&& found.dom().contains(title)
            &&& found[title].name == title
            &&& found[title].definition == list@[at].definition@
            &&& found[title].song_file == list@[at].song_file@
        }),
{
    let all = entries.push(entry);
    let views = crate::config::songs::song_views(list@);
    let title = list@[at].name@;
    assert(all.drop_last() =~= entries);
    assert(crate::config::songs::songs_of_file(entry) == views);
    assert(views[at].name == title);
    assert forall|i: int| at < i < views.len() implies (#[trigger] views[i]).name != title by {
        assert(list@[i].name@ != title);
    }
    let below = match entry.entries {
        Some(inner) => crate::config::songs::songs_under(inner@),
        None => Map::empty(),
    };
    law_added_songs(
        crate::config::songs::songs_under(entries).union_prefer_right(below),
        views,
        title,
        at,
    );
}

/// An entry that is listed last, and that is no song file with that title in it,
/// leaves the title to what is found under it, if it is a directory, and else to
/// what is found in the entries before it.
pub proof fn law_last_directory_decides(
    entries: Seq<DirEntry>,
    entry: DirEntry,
    title: Seq<char>,
)
    requires
        !(entry.songs matches Some(list) && entry.extension matches Some(extension) && (extension@
            == "yaml"@ || extension@ == "yml"@) && exists|i: int|
            0 <= i < list@.len() && (#[trigger] list@[i]).name@ == title),
    ensures
        ({
            let found = crate::config::songs::songs_under(entries.push(entry));
            let before = crate::config::songs::songs_under(entries);
            match entry.entries {
                Some(inner) if crate::config::songs::songs_under(inner@).dom().contains(title) => {
                    found.dom().contains(title) && found[title]
                        == crate::config::songs::songs_under(inner@)[title]
                },
                _ => (found.dom().contains(title) <==> before.dom().contains(title)) && (
                before.dom().contains(title) ==> found[title] == before[title]),
            }
        }),
        crate::config::songs::songs_under(Seq::empty()) == Map::<Seq<char>, SongView>::empty(),
{
    let all = entries.push(entry);
    assert(all.drop_last() =~= entries);
    let views = crate::config::songs::songs_of_file(entry);
    assert forall|i: int| 0 <= i < views.len() implies (#[trigger] views[i]).name != title by {
        match entry.songs {
            Some(list) => {
                assert(views[i] == list@[i]@);
                assert(list@[i].name@ == views[i].name);
            },
            None => {},
        }
    }
    let below = match entry.entries {
        Some(inner) => crate::config::songs::songs_under(inner@),
        None => Map::empty(),
    };
    law_added_songs(
        crate::config::songs::songs_under(entries).union_prefer_right(below),
        views,
        title,
        0,
    );
}

/// Whether a song was parsed of a file with the extension of song files in a
/// directory or below it.
pub open spec fn parsed_under(entries: Seq<DirEntry>, song: Song) -> bool
    decreases entries,
{
    if entries.len() == 0 {
        false
    } else {
        let entry = entries.last();
        ||| parsed_under(entries.drop_last(), song)
        ||| entry.entries matches Some(inner) && parsed_under(inner@, song)
        ||| (entry.extension matches Some(extension) && (extension@ == "yaml"@ || extension@
            == "yml"@)) && (entry.songs matches Some(list) && list@.contains(song))
    }
}

/// Every song that is found under a directory is, with its title, its definition
/// and its file, one that was parsed there.
pub proof fn law_songs_found_were_parsed(entries: Seq<DirEntry>, title: Seq<char>)
    requires
        crate::config::songs::songs_under(entries).dom().contains(title),
    ensures
        exists|song: Song| #[trigger]
            parsed_under(entries, song) && song.name@ == title && ({
                let found = crate::config::songs::songs_under(entries)[title];
                &&& found.name == song.name@
                &&& found.definition == song.definition@
                &&& found.song_file == song.song_file@
            }),
    decreases entries,
{
    if entries.len() > 0 {
        let front = entries.drop_last();
        let entry = entries.last();
        assert(front.push(entry) =~= entries);
        if entry.songs matches Some(list) && entry.extension matches Some(extension) && (extension@
            == "yaml"@ || extension@ == "yml"@) && exists|i: int|
            0 <= i < list@.len() && (#[trigger] list@[i]).name@ == title {
            let list = entry.songs->0;
            let at = lemma_last_of_title(list@, title, list@.len() as int);
            law_last_file_decides(front, entry, entry.extension->0, list, at);
            assert(list@.contains(list@[at]));
            assert(parsed_under(entries, list@[at]));
        } else {
            law_last_directory_decides(front, entry, title);
            match entry.entries {
                Some(inner) if crate::config::songs::songs_under(inner@).dom().contains(title) => {
                    law_songs_found_were_parsed(inner@, title);
                    let below = crate::config::songs::songs_under(inner@)[title];
                    let song = choose|song: Song| #[trigger]
                        parsed_under(inner@, song) && song.name@ == title && below.name
                            == song.name@ && below.definition == song.definition@
                            && below.song_file == song.song_file@;
                    assert(parsed_under(entries, song));
                },
                _ => {
                    law_songs_found_were_parsed(front, title);
                    let before = crate::config::songs::songs_under(front)[title];
                    let song = choose|song: Song| #[trigger]
                        parsed_under(front, song) && song.name@ == title && before.name
                            == song.name@ && before.definition == song.definition@
                            && before.song_file == song.song_file@;
                    assert(parsed_under(entries, song));
                },
            }
        }
    }
}

/// Where the last song of a title is in the first songs of a list.
proof fn lemma_last_of_title(list: Seq<Song>, title: Seq<char>, count: int) -> (at: int)
    requires
        0 <= count <= list.len(),
        exists|i: int| 0 <= i < count && (#[trigger] list[i]).name@ == title,
        forall|i: int| count <= i < list.len() ==> (#[trigger] list[i]).name@ != title,
    ensures
        0 <= at < list.len(),
        list[at].name@ == title,
        forall|i: int| at < i < list.len() ==> (#[trigger] list[i]).name@ != title,
    decreases count,
{
    if list[count - 1].name@ == title {
        count - 1
    } else {
        lemma_last_of_title(list, title, count - 1)
    }
}

/// Every song that was parsed under a directory is found by its title, itself or
/// another that was parsed there.
pub proof fn law_songs_parsed_are_found(entries: Seq<DirEntry>, song: Song)
    requires
        parsed_under(entries, song),
    ensures
        crate::config::songs::songs_under(entries).dom().contains(song.name@),
    decreases entries,
{
    let front = entries.drop_last();
    let entry = entries.last();
    let title = song.name@;
    assert(front.push(entry) =~= entries);
    if entry.songs matches Some(list) && entry.extension matches Some(extension) && (extension@
        == "yaml"@ || extension@ == "yml"@) && exists|i: int|
        0 <= i < list@.len() && (#[trigger] list@[i]).name@ == title {
        let list = entry.songs->0;
        let at = lemma_last_of_title(list@, title, list@.len() as int);
        law_last_file_decides(front, entry, entry.extension->0, list, at);
    } else {
        law_last_directory_decides(front, entry, title);
        if parsed_under(front, song) {
            law_songs_parsed_are_found(front, song);
        } else if entry.entries matches Some(inner) && parsed_under(inner@, song) {
            law_songs_parsed_are_found(entry.entries->0@, song);
        } else {
            let list = entry.songs->0;
            let i = choose|i: int| 0 <= i < list@.len() && list@[i] == song;
            assert(list@[i].name@ == title);
        }
    }
}

/// Whether a file holds songs is a matter of its extension alone.
pub proof fn law_song_extensions(extension: Seq<char>)
    ensures
        crate::config::songs::song_extension(Some(extension)) <==> extension == "yaml"@
            || extension == "yml"@,
        !crate::config::songs::song_extension(None),
{
}

} // verus!
