use mtrack::config::songs::{
    convert_songs, get_all_songs, is_song_extension, parse_songs, song_configs, DirEntry, Song,
    SongConfig, SongDocument, Songs, SongsError,
};

fn song(name: &str, file: &str) -> Song {
    Song {
        name: name.to_string(),
        definition: format!("name: {name}\n"),
        song_file: file.to_string(),
    }
}

fn document(name: &str) -> Result<SongDocument, String> {
    Ok(SongDocument { name: name.to_string(), definition: format!("name: {name}\n") })
}

/// Makes a song of a configuration, unless its title says not to.
fn convert(config: &SongConfig) -> Result<Song, String> {
    if config.name.starts_with("bad") {
        return Err(format!("{} has no tracks", config.name));
    }
    Ok(Song {
        name: config.name.clone(),
        definition: config.definition.clone(),
        song_file: config.song_file.clone(),
    })
}

fn file(extension: &str, songs: Option<Vec<Song>>) -> DirEntry {
    DirEntry { entries: None, extension: Some(extension.to_string()), songs }
}

fn directory(entries: Vec<DirEntry>) -> DirEntry {
    DirEntry { entries: Some(entries), extension: None, songs: None }
}

fn file_of(songs: &Songs, name: &str) -> Option<String> {
    songs.get(name).map(|song| song.song_file.clone())
}

#[test]
fn songs_of_a_file() {
    let documents = vec![document("A"), document("B")];
    let canonical = Ok("/songs/ab.yaml".to_string());
    match parse_songs(&documents, "ab.yaml", &canonical, convert) {
        Ok(songs) => {
            assert_eq!(songs.len(), 2);
            assert_eq!(songs[0].name, "A");
            assert_eq!(songs[0].definition, "name: A\n");
            assert_eq!(songs[0].song_file, "/songs/ab.yaml");
            assert_eq!(songs[1].name, "B");
        }
        Err(_) => panic!("Expected songs"),
    }
}

#[test]
fn document_that_is_no_song() {
    let documents = vec![document("A"), Err("missing field `name`".to_string()), document("C")];
    let canonical = Ok("/songs/a.yaml".to_string());
    match parse_songs(&documents, "songs/a.yaml", &canonical, convert) {
        Err(SongsError::Document(message)) => {
            assert_eq!(message, "error parsing file songs/a.yaml: missing field `name`");
        }
        _ => panic!("Expected a fault in a document"),
    }
}

#[test]
fn file_without_a_canonical_path() {
    let canonical = Err("No such file".to_string());
    let documents = vec![document("A"), Err("wrong".to_string())];
    match parse_songs(&documents, "a.yaml", &canonical, convert) {
        Err(SongsError::File(message)) => assert_eq!(message, "No such file"),
        _ => panic!("Expected a fault of the file"),
    }
    let documents = vec![Err("wrong".to_string()), document("A")];
    assert!(matches!(
        parse_songs(&documents, "a.yaml", &canonical, convert),
        Err(SongsError::Document(message)) if message == "error parsing file a.yaml: wrong"
    ));
    let documents = Vec::new();
    assert!(matches!(parse_songs(&documents, "a.yaml", &canonical, convert), Ok(songs) if songs.is_empty()));
}

#[test]
fn songs_that_cannot_be_made() {
    let canonical = Ok("/songs/a.yaml".to_string());
    let documents = vec![document("A"), document("bad 1"), document("bad 2")];
    assert!(matches!(
        parse_songs(&documents, "a.yaml", &canonical, convert),
        Err(SongsError::Conversion(message)) if message == "bad 1 has no tracks"
    ));
    let documents = vec![document("bad"), Err("wrong".to_string())];
    assert!(matches!(
        parse_songs(&documents, "a.yaml", &canonical, convert),
        Err(SongsError::Document(message)) if message == "error parsing file a.yaml: wrong"
    ));
    assert!(matches!(
        song_configs(&vec![document("bad")], "a.yaml", &canonical),
        Ok(configs) if configs.len() == 1 && configs[0].song_file == "/songs/a.yaml"
    ));
}

#[test]
fn conversions() {
    let good = vec![Ok(song("A", "1")), Ok(song("B", "2"))];
    match convert_songs(&good) {
        Ok(songs) => {
            assert_eq!(songs.len(), 2);
            assert_eq!(songs[0].name, "A");
            assert_eq!(songs[1].name, "B");
        }
        Err(_) => panic!("Expected songs"),
    }
    let bad = vec![Ok(song("A", "1")), Err("first".to_string()), Err("second".to_string())];
    assert!(matches!(
        convert_songs(&bad),
        Err(SongsError::Conversion(message)) if message == "first"
    ));
    assert!(matches!(convert_songs(&Vec::new()), Ok(songs) if songs.is_empty()));
}

#[test]
fn song_extensions() {
    assert!(is_song_extension(&Some("yaml".to_string())));
    assert!(is_song_extension(&Some("yml".to_string())));
    assert!(!is_song_extension(&Some("YAML".to_string())));
    assert!(!is_song_extension(&Some("wav".to_string())));
    assert!(!is_song_extension(&Some(String::new())));
    assert!(!is_song_extension(&None));
}

#[test]
fn songs_by_title() {
    let mut songs = Songs::new();
    assert_eq!(songs.list().len(), 0);
    assert!(songs.get("A").is_none());
    songs.insert(song("A", "1"));
    songs.insert(song("B", "2"));
    songs.insert(song("A", "3"));
    assert_eq!(songs.list().len(), 2);
    assert_eq!(file_of(&songs, "A").as_deref(), Some("3"));
    assert_eq!(file_of(&songs, "B").as_deref(), Some("2"));
    songs.insert_all(&vec![song("B", "4"), song("C", "5"), song("B", "6")]);
    assert_eq!(songs.list().len(), 3);
    assert_eq!(file_of(&songs, "B").as_deref(), Some("6"));
    assert_eq!(file_of(&songs, "C").as_deref(), Some("5"));
}

#[test]
fn all_songs_under_a_directory() {
    let entries = vec![
        file("yaml", Some(vec![song("A", "a.yaml"), song("B", "a.yaml")])),
        file("wav", None),
        directory(vec![
            file("yml", Some(vec![song("C", "d/c.yml"), song("B", "d/c.yml")])),
            directory(vec![file("yaml", Some(vec![song("D", "d/e/d.yaml")]))]),
        ]),
        file("yaml", None),
        file("txt", Some(vec![song("E", "e.txt")])),
        file("yml", Some(vec![song("C", "late.yml")])),
    ];
    let songs = get_all_songs(&entries);
    assert_eq!(songs.list().len(), 4);
    assert_eq!(file_of(&songs, "A").as_deref(), Some("a.yaml"));
    assert_eq!(file_of(&songs, "B").as_deref(), Some("d/c.yml"));
    assert_eq!(file_of(&songs, "C").as_deref(), Some("late.yml"));
    assert_eq!(file_of(&songs, "D").as_deref(), Some("d/e/d.yaml"));
    assert!(songs.get("E").is_none());
    for found in songs.list() {
        assert_eq!(file_of(&songs, &found.name), Some(found.song_file.clone()));
    }
}

#[test]
fn empty_directory() {
    assert_eq!(get_all_songs(&Vec::new()).list().len(), 0);
}
