use std::collections::HashMap;

use mtrack::config::get_songs_path;
use mtrack::config::keys::{find_large_index, has_large_index};
use mtrack::config::osc::OscConfig;
use mtrack::config::player::{DeserializeError, Player, PlayerSettings};
use mtrack::config::sections::{
    Audio, Controller, Dmx, Midi, Section, StatusEvents, DEFAULT_AUDIO_PLAYBACK_DELAY,
};
use mtrack::net::{IpAddr, SocketAddr};

/// A minimal configuration, as it would stand in `assets/test_data/player_ok.yml`.
const PLAYER_OK: &str = "audio:\n  device: mock-device\ntrack_mappings:\n  drums: [1]\nsongs: songs\n";

const PLAYER_FULL: &str = "
controllers:
  - kind: keyboard
  - kind: osc
    port: 43234
audio:
  device: mock-device
  playback_delay: 500ms
track_mappings:
  drums: [1, 2]
  click: [3]
midi:
  device: mock-midi-device
dmx:
  universes: [1]
status_events:
  off_events: []
playlist: playlist.yaml
songs: assets/songs
";

fn config_of(text: &str) -> ::config::Config {
    ::config::Config::builder()
        .add_source(::config::File::from_str(text, ::config::FileFormat::Yaml))
        .build()
        .unwrap()
}

/// Takes every section as it is.
fn any_form(_: Section, _: &::config::Value) -> Result<(), ::config::ConfigError> {
    Ok(())
}

/// Asks every section but a controller to be a table, and a controller to have a kind.
fn table_form(section: Section, value: &::config::Value) -> Result<(), ::config::ConfigError> {
    let table = value.clone().into_table()?;
    if section == Section::Controller && !table.contains_key("kind") {
        return Err(::config::ConfigError::Message("no kind".to_string()));
    }
    Ok(())
}

/// Reads a delay in milliseconds.
fn milliseconds(text: &str) -> Result<u64, String> {
    match text.strip_suffix("ms").and_then(|number| number.parse::<u64>().ok()) {
        Some(number) => Ok(number * 1000000),
        None => Err(format!("no delay: {text}")),
    }
}

fn player(text: &str) -> Player {
    match Player::deserialize(text, &any_form) {
        Ok(player) => player,
        Err(_) => panic!("Could not deserialize the configuration"),
    }
}

fn missing(text: &str) -> String {
    match Player::deserialize(text, &any_form) {
        Err(DeserializeError::Missing(key)) => key,
        _ => panic!("Expected a missing setting"),
    }
}

fn invalid(text: &str) -> String {
    match Player::deserialize(text, &any_form) {
        Err(DeserializeError::Invalid(key, _)) => key,
        _ => panic!("Expected a setting of the wrong form"),
    }
}

fn text_of(value: ::config::Value) -> String {
    value.into_string().unwrap()
}

fn field(value: ::config::Value, key: &str) -> String {
    text_of(value.into_table().unwrap()[key].clone())
}

#[test]
fn test_deserialize_ok() {
    let deserialized = match Player::deserialize(PLAYER_OK, &any_form) {
        Ok(deserialized) => {
            assert!(true);
            deserialized
        }
        Err(_) => {
            assert!(false, "Could not deserialize valid player configuration.");
            return;
        }
    };
    assert_eq!(
        deserialized.controllers().len(),
        0,
        "Expected not to find any controllers in minimal configuration"
    );
    let playback_delay = match deserialized.audio().playback_delay(milliseconds) {
        Ok(playback_delay) => playback_delay,
        Err(_) => panic!("Could not read the playback delay"),
    };
    assert_eq!(
        playback_delay, DEFAULT_AUDIO_PLAYBACK_DELAY,
        "Expected default playback delay to be used"
    );
}

#[test]
fn minimal_configuration_has_nothing_else() {
    let player = player(PLAYER_OK);
    assert_eq!(player.audio().device(), "mock-device");
    assert_eq!(player.track_mappings().len(), 1);
    assert_eq!(player.track_mappings()["drums"], vec![1u16]);
    assert!(player.midi().is_none());
    assert!(player.dmx().is_none());
    assert!(player.status_events().is_none());
    assert!(player.playlist().is_none());
    assert_eq!(player.songs("etc/player.yaml"), "etc/songs");
}

#[test]
fn full_configuration() {
    let player = player(PLAYER_FULL);
    let controllers = player.controllers();
    assert_eq!(controllers.len(), 2);
    assert_eq!(field(controllers[0].value.clone(), "kind"), "keyboard");
    assert_eq!(field(controllers[1].value.clone(), "kind"), "osc");
    assert_eq!(field(controllers[1].value.clone(), "port"), "43234");
    assert_eq!(player.audio().device(), "mock-device");
    assert_eq!(player.audio().playback_delay(milliseconds), Ok(500000000));
    assert_eq!(player.track_mappings().len(), 2);
    assert_eq!(player.track_mappings()["drums"], vec![1u16, 2]);
    assert_eq!(player.track_mappings()["click"], vec![3u16]);
    assert_eq!(field(player.midi().unwrap().value, "device"), "mock-midi-device");
    let dmx = player.dmx().unwrap().value.clone().into_table().unwrap();
    assert_eq!(dmx["universes"].clone().into_array().unwrap().len(), 1);
    let events = player.status_events().unwrap().value.into_table().unwrap();
    assert_eq!(events["off_events"].clone().into_array().unwrap().len(), 0);
    assert_eq!(player.playlist().as_deref(), Some("playlist.yaml"));
    assert_eq!(player.songs("/etc/mtrack/player.yaml"), "/etc/mtrack/assets/songs");
}

#[test]
fn null_counts_as_missing() {
    let text = format!("{PLAYER_OK}controllers: null\nmidi: ~\nplaylist:\n");
    let player = player(&text);
    assert_eq!(player.controllers().len(), 0);
    assert!(player.midi().is_none());
    assert!(player.playlist().is_none());
    assert_eq!(missing("audio:\n  device: ~\ntrack_mappings: {}\nsongs: songs\n"), "audio.device");
}

#[test]
fn empty_list_of_controllers() {
    let text = format!("{PLAYER_OK}controllers: []\n");
    assert_eq!(player(&text).controllers().len(), 0);
}

#[test]
fn required_settings() {
    assert_eq!(missing("track_mappings: {}\nsongs: songs\n"), "audio.device");
    assert_eq!(missing("audio:\n  playback_delay: 1s\ntrack_mappings: {}\nsongs: songs\n"), "audio.device");
    assert_eq!(missing("audio:\n  device: a\nsongs: songs\n"), "track_mappings");
    assert_eq!(missing("audio:\n  device: a\ntrack_mappings: {}\n"), "songs");
    assert_eq!(missing(""), "audio.device");
    assert_eq!(player("audio:\n  device: a\ntrack_mappings: {}\nsongs: s\n").track_mappings().len(), 0);
}

#[test]
fn settings_of_the_wrong_form() {
    assert_eq!(invalid("audio:\n  device: [a]\ntrack_mappings: {}\nsongs: s\n"), "audio.device");
    assert_eq!(
        invalid("audio:\n  device: a\n  playback_delay: {b: c}\ntrack_mappings: {}\nsongs: s\n"),
        "audio.playback_delay"
    );
    assert_eq!(invalid("audio:\n  device: a\ntrack_mappings: [1]\nsongs: s\n"), "track_mappings");
    assert_eq!(
        invalid("audio:\n  device: a\ntrack_mappings: {t: [70000]}\nsongs: s\n"),
        "track_mappings"
    );
    assert_eq!(invalid("audio:\n  device: a\ntrack_mappings: {}\nsongs: [s]\n"), "songs");
    assert_eq!(invalid(&format!("{PLAYER_OK}controllers: {{a: b}}\n")), "controllers");
    assert_eq!(invalid(&format!("{PLAYER_OK}playlist: [p]\n")), "playlist");
}

#[test]
fn first_fault_is_reported() {
    assert_eq!(missing("songs: [s]\n"), "audio.device");
    assert_eq!(invalid("audio:\n  device: [a]\n"), "audio.device");
    assert_eq!(missing("audio:\n  device: a\nsongs: [s]\n"), "track_mappings");
}

#[test]
fn unreadable_text() {
    assert!(matches!(
        Player::deserialize("audio: [unclosed", &any_form),
        Err(DeserializeError::Unreadable(_))
    ));
    assert!(matches!(
        Player::deserialize("just text", &any_form),
        Err(DeserializeError::Unreadable(_))
    ));
    assert!(matches!(
        Player::deserialize("a: b\n---\nc: d\n", &any_form),
        Err(DeserializeError::Unreadable(_))
    ));
}

#[test]
fn configuration_that_was_read_before() {
    let config = config_of(PLAYER_FULL);
    let settings = PlayerSettings::read(&config);
    assert!(matches!(&settings.device, Ok(Some(device)) if device == "mock-device"));
    assert!(matches!(&settings.playlist, Ok(Some(path)) if path == "playlist.yaml"));
    assert!(matches!(&settings.controllers, Ok(Some(list)) if list.len() == 2));
    match Player::from_config(&config, &any_form) {
        Ok(player) => assert_eq!(player.audio().playback_delay(milliseconds), Ok(500000000)),
        Err(_) => panic!("Could not read the configuration"),
    }
}

fn plain_settings() -> PlayerSettings {
    PlayerSettings {
        device: Ok(Some("device".to_string())),
        playback_delay: Ok(None),
        track_mappings: Ok(Some(HashMap::new())),
        songs: Ok(Some("songs".to_string())),
        controllers: Ok(None),
        midi: Ok(None),
        dmx: Ok(None),
        status_events: Ok(None),
        playlist: Ok(None),
    }
}

fn fault(settings: PlayerSettings) -> String {
    match Player::from_settings(settings) {
        Err(DeserializeError::Invalid(key, _)) => key,
        Err(DeserializeError::Missing(key)) => format!("no {key}"),
        _ => panic!("Expected a fault"),
    }
}

#[test]
fn settings_make_a_player() {
    assert!(Player::from_settings(plain_settings()).is_ok());
    let error = || ::config::ConfigError::Message("wrong".to_string());
    let mut settings = plain_settings();
    settings.midi = Err(error());
    assert_eq!(fault(settings), "midi");
    let mut settings = plain_settings();
    settings.dmx = Err(error());
    settings.status_events = Err(error());
    assert_eq!(fault(settings), "dmx");
    let mut settings = plain_settings();
    settings.status_events = Err(error());
    assert_eq!(fault(settings), "status_events");
    let mut settings = plain_settings();
    settings.songs = Ok(None);
    assert_eq!(fault(settings), "no songs");
}

#[test]
fn player_from_its_parts() {
    let mut mappings: HashMap<String, Vec<u16>> = HashMap::new();
    mappings.insert("bass".to_string(), vec![4, 5]);
    let player = Player::new(
        vec![Controller { value: ::config::Value::from("keyboard") }],
        Audio::new("mock-device"),
        Some(Midi { value: ::config::Value::from("mock-midi-device") }),
        Some(Dmx { value: ::config::Value::from("dmx") }),
        mappings,
        Some(StatusEvents { value: ::config::Value::from("events") }),
        "assets/songs",
    );
    let controllers = player.controllers();
    assert_eq!(controllers.len(), 1);
    assert_eq!(text_of(controllers[0].value.clone()), "keyboard");
    assert_eq!(player.audio().device(), "mock-device");
    assert_eq!(player.audio().playback_delay(milliseconds), Ok(0));
    assert_eq!(text_of(player.midi().unwrap().value), "mock-midi-device");
    assert_eq!(text_of(player.dmx().unwrap().value.clone()), "dmx");
    assert_eq!(text_of(player.status_events().unwrap().value), "events");
    assert_eq!(player.track_mappings()["bass"], vec![4u16, 5]);
    assert!(player.playlist().is_none());
    assert_eq!(player.songs("player.yaml"), "assets/songs");
    assert_eq!(player.songs("etc/player.yaml"), "etc/assets/songs");
}

#[test]
fn audio_section() {
    let audio = Audio::with_playback_delay("device".to_string(), Some("2ms".to_string()));
    let copy = audio.clone();
    assert_eq!(copy.device(), "device");
    assert_eq!(copy.playback_delay(milliseconds), Ok(2000000));
    let plain = Audio::with_playback_delay("device".to_string(), None);
    assert_eq!(plain.playback_delay(milliseconds), Ok(0));
    assert_eq!(plain.playback_delay(|_: &str| Err("wrong".to_string())), Ok(0));
    let wrong = Audio::with_playback_delay("device".to_string(), Some("soon".to_string()));
    assert_eq!(wrong.playback_delay(milliseconds), Err("no delay: soon".to_string()));
}

fn wrong_section(text: &str) -> String {
    match Player::deserialize(text, &table_form) {
        Err(DeserializeError::Invalid(key, _)) => key,
        _ => panic!("Expected a section of the wrong form"),
    }
}

#[test]
fn sections_of_the_wrong_form() {
    assert!(Player::deserialize(PLAYER_OK, &table_form).is_ok());
    assert!(Player::deserialize(PLAYER_FULL, &table_form).is_ok());
    assert_eq!(wrong_section(&format!("{PLAYER_OK}midi: text\n")), "midi");
    assert_eq!(wrong_section(&format!("{PLAYER_OK}dmx: [1]\n")), "dmx");
    assert_eq!(wrong_section(&format!("{PLAYER_OK}status_events: 5\n")), "status_events");
    assert_eq!(
        wrong_section(&format!("{PLAYER_OK}controllers:\n  - kind: a\n  - b: c\nmidi: text\n")),
        "controllers"
    );
    assert!(Player::from_config(&config_of(&format!("{PLAYER_OK}midi: text\n")), &table_form).is_err());
}

#[test]
fn first_wrong_controller_decides() {
    let form = |_: Section, value: &::config::Value| {
        Err(::config::ConfigError::Message(value.clone().into_string().unwrap()))
    };
    let mut settings = plain_settings();
    settings.controllers =
        Ok(Some(vec![::config::Value::from("first"), ::config::Value::from("second")]));
    let tested = settings.test_sections(&form);
    assert!(matches!(
        &tested.controllers,
        Err(::config::ConfigError::Message(message)) if message == "first"
    ));
    assert!(matches!(&tested.midi, Ok(None)));
    assert_eq!(fault(tested), "controllers");
}

#[test]
fn large_indices_in_keys() {
    let refused = |key: &str| match Player::deserialize(&format!("{PLAYER_OK}{key}: 1\n"), &any_form) {
        Err(DeserializeError::LargeIndex(key)) => key,
        _ => panic!("Expected a large index"),
    };
    assert_eq!(refused("a[9223372036854775807]"), "a[9223372036854775807]");
    assert_eq!(refused("a[-9223372036854775808]"), "a[-9223372036854775808]");
    assert_eq!(refused("a[ \t 9223372036854775807 ]"), "a[ \t 9223372036854775807 ]");
    assert_eq!(refused("a[00009223372036854775807]"), "a[00009223372036854775807]");
    assert_eq!(
        refused("\"a\\x5b922337203685477580\\x37]\""),
        "a[9223372036854775807]"
    );
    assert_eq!(refused("a[1].b[9223372036854775807]"), "a[1].b[9223372036854775807]");
    for line in [
        "a[3]: 1",
        "a[-2]: 1",
        "a[00000001]: 1",
        "a[-000000000000000000000000000001]: 1",
        "a[12345]: 1",
        "a[9223372036854775808]: 1",
        "a[-9223372036854775809]: 1",
        "a b[9223372036854775807]: 1",
        "a[9223372036854775807]b: 1",
        "a[9223372036854775807].: 1",
        "a[9223372036854775807: 1",
        "a[9 223372036854775807]: 1",
        "a: b[9223372036854775807]",
        "a:\n  b[9223372036854775807]: 1",
        "a: [9223372036854775807]",
        "a9223372036854775807: 1",
    ] {
        assert!(Player::deserialize(&format!("{PLAYER_OK}{line}\n"), &any_form).is_ok(), "{line}");
    }
}

#[test]
fn longest_lists() {
    let longest = isize::MAX as usize / (2 * std::mem::size_of::<::config::Value>());
    assert!(!has_large_index(&format!("a[{}]", longest - 1)));
    assert!(has_large_index(&format!("a[{longest}]")));
    assert!(!has_large_index(&format!("a[-{longest}]")));
    assert!(has_large_index(&format!("a[-{}]", longest + 1)));
    assert!(has_large_index(&format!("a[0][{longest}][0].b")));
    assert!(!has_large_index(&format!("a[0][{longest}][x]")));
    assert!(!has_large_index(&format!("[{longest}]")));
    assert!(!has_large_index(&format!("ä[{longest}]")));
    for key in ["", "a", "a.b", "a[]", "a[-]", "a[--1]", "a[-0]", "a[+1]", "a[ 1 ]", "a..b"] {
        assert!(!has_large_index(key), "{key}");
    }
    let keys = vec!["a".to_string(), format!("b[{longest}]"), format!("c[{longest}]")];
    assert_eq!(find_large_index(&keys), Some(format!("b[{longest}]")));
    assert!(find_large_index(&keys[..1].to_vec()).is_none());
}

/// An index in a key at the top is where the value goes in a list.
#[test]
fn indices_in_keys() {
    let text = format!("{PLAYER_OK}controllers[00000001]: b\ncontrollers[-2]: a\n");
    let controllers = player(&text).controllers();
    assert_eq!(controllers.len(), 2);
    assert_eq!(text_of(controllers[0].value.clone()), "a");
    assert_eq!(text_of(controllers[1].value.clone()), "b");
}

#[test]
fn songs_path() {
    assert_eq!(get_songs_path("/etc/player.yaml", "songs".to_string()), "/etc/songs");
    assert_eq!(get_songs_path("player.yaml", "songs".to_string()), "songs");
    assert_eq!(get_songs_path("/etc/player.yaml", "/srv/songs".to_string()), "/srv/songs");
    assert_eq!(get_songs_path("/", "songs".to_string()), "songs");
    assert_eq!(get_songs_path("", "songs".to_string()), "songs");
}

#[test]
fn osc_section() {
    let config = OscConfig { listen_host: IpAddr::V4(0x7f000001), listen_port: 43234 };
    assert_eq!(config.bind_addr(), SocketAddr::V4 { ip: 0x7f000001, port: 43234 });
    let config = OscConfig { listen_host: IpAddr::V6(1), listen_port: 9 };
    assert_eq!(
        config.bind_addr(),
        SocketAddr::V6 { ip: 1, port: 9, flow_info: 0, scope_id: 0 }
    );
}
