use mtrack::controller::keyboard::{
    event_for_command, event_for_line, next_round, prompt, LoopAction, ALL_SONGS, NEXT, PLAY, PLAYLIST, PREV, STOP,
};
use mtrack::controller::Event;

#[test]
fn prompt_names_the_commands() {
    assert_eq!(prompt(), "Command (play, prev, next, stop, all_songs, playlist): ");
}

#[test]
fn commands() {
    assert_eq!(event_for_command(PLAY), Some(Event::Play));
    assert_eq!(event_for_command(PREV), Some(Event::Prev));
    assert_eq!(event_for_command(NEXT), Some(Event::Next));
    assert_eq!(event_for_command(STOP), Some(Event::Stop));
    assert_eq!(event_for_command(ALL_SONGS), Some(Event::AllSongs));
    assert_eq!(event_for_command(PLAYLIST), Some(Event::Playlist));
    assert_eq!(event_for_command("Play"), None);
    assert_eq!(event_for_command(" play"), None);
    assert_eq!(event_for_command(""), None);
}

/// The commands that a session at the keyboard types in.
#[test]
fn a_session() {
    let session = [NEXT, PREV, ALL_SONGS, NEXT, NEXT, NEXT, PLAYLIST, NEXT, PLAY, PLAY, STOP];
    let events: Vec<Option<Event>> =
        session.iter().map(|command| event_for_line(&format!("{}\n", command))).collect();
    assert_eq!(
        events,
        vec![
            Some(Event::Next),
            Some(Event::Prev),
            Some(Event::AllSongs),
            Some(Event::Next),
            Some(Event::Next),
            Some(Event::Next),
            Some(Event::Playlist),
            Some(Event::Next),
            Some(Event::Play),
            Some(Event::Play),
            Some(Event::Stop),
        ]
    );
}

#[test]
fn case_and_white_space_do_not_matter() {
    assert_eq!(event_for_line("PLAY\r\n"), Some(Event::Play));
    assert_eq!(event_for_line("\t All_Songs \u{b}\u{c}"), Some(Event::AllSongs));
    assert_eq!(event_for_line("play"), Some(Event::Play));
    assert_eq!(event_for_line("\u{3000}stop\u{a0}\u{85}"), Some(Event::Stop));
}

#[test]
fn lines_without_a_command() {
    assert_eq!(event_for_line(""), None);
    assert_eq!(event_for_line(" \n"), None);
    assert_eq!(event_for_line("play now\n"), None);
    assert_eq!(event_for_line("pl ay\n"), None);
    assert_eq!(event_for_line("\u{200b}play"), None);
    assert_eq!(event_for_line("\u{1c}play"), None);
    assert_eq!(event_for_line("płay"), None);
}

/// Trimming and lower case are those of the standard library.
#[test]
fn lines_are_read_as_the_system_reads_them() {
    let marks = ["", " ", "\n", "\u{85}", "\u{2003}", "\u{feff}", "x", "\u{1f}"];
    for before in marks {
        for after in marks {
            for word in ["play", "PREV", "Next", "sTOP", "all_songs", "PLAYLIST", "İ", "pla"] {
                let line = format!("{before}{word}{after}");
                let expected = event_for_command(line.trim().to_lowercase().as_str());
                assert_eq!(event_for_line(&line), expected, "line {line:?}");
            }
        }
    }
}

#[test]
fn rounds_at_the_keyboard() {
    assert_eq!(next_round(false, false), LoopAction::Prompt);
    assert_eq!(next_round(true, false), LoopAction::Finish);
    assert_eq!(next_round(false, true), LoopAction::Fail);
    assert_eq!(next_round(true, true), LoopAction::Fail);
}
