use std::path::Path;

use mtrack::path::{is_absolute, join, parent, resolve};

/// All texts of up to `length` characters out of these.
fn texts(alphabet: &str, length: usize) -> Vec<String> {
    let mut all = vec![String::new()];
    let mut last = all.clone();
    for _ in 0..length {
        let mut next = Vec::new();
        for text in &last {
            for c in alphabet.chars() {
                next.push(format!("{text}{c}"));
            }
        }
        all.extend(next.iter().cloned());
        last = next;
    }
    all
}

#[test]
fn parents_are_those_of_the_system() {
    for text in texts("/.ab", 6) {
        let expected = Path::new(&text).parent().map(|p| p.to_str().unwrap().to_string());
        assert_eq!(parent(&text), expected, "parent of {text:?}");
        assert_eq!(is_absolute(&text), Path::new(&text).is_absolute());
    }
}

#[test]
fn joins_are_those_of_the_system() {
    let all = texts("/.a", 4);
    for directory in &all {
        for path in &all {
            let expected = Path::new(directory).join(path);
            assert_eq!(join(directory, path), expected.to_str().unwrap());
        }
    }
}

#[test]
fn characters_of_several_bytes() {
    assert_eq!(parent("müsik/lïste.yaml").as_deref(), Some("müsik"));
    assert_eq!(join("müsik", "söngs"), "müsik/söngs");
    assert_eq!(resolve("/ä/ö.yaml", "ü"), "/ä/ü");
}

#[test]
fn where_paths_lead() {
    assert_eq!(resolve("/etc/mtrack/player.yaml", "songs"), "/etc/mtrack/songs");
    assert_eq!(resolve("/etc/mtrack/player.yaml", "/srv/songs"), "/srv/songs");
    assert_eq!(resolve("./player.yaml", "songs"), "./songs");
    assert_eq!(resolve("player.yaml", "songs"), "songs");
    assert_eq!(resolve("/", "songs"), "songs");
    assert_eq!(resolve("", "songs"), "songs");
    assert_eq!(resolve("a/b/", "../songs"), "a/../songs");
}

#[test]
fn parent_undoes_join() {
    for directory in ["", "/", ".", "a", "/a", "a/b", "..", "./a", "/a/.."] {
        for name in ["x", "..", "a.b", "..."] {
            assert_eq!(parent(&join(directory, name)).as_deref(), Some(directory));
        }
    }
}
