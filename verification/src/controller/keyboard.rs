//! Control by commands that are typed in, one in a line.
use vstd::prelude::*;

use crate::controller::Event;
use crate::text::same_text;

verus! {

pub const PLAY: &'static str = "play";

pub const PREV: &'static str = "prev";

pub const NEXT: &'static str = "next";

pub const STOP: &'static str = "stop";

pub const ALL_SONGS: &'static str = "all_songs";

pub const PLAYLIST: &'static str = "playlist";

/// The command that tells the player to do something.
pub open spec fn command(event: Event) -> Seq<char> {
    match event {
        Event::Play => PLAY@,
        Event::Prev => PREV@,
        Event::Next => NEXT@,
        Event::Stop => STOP@,
        Event::AllSongs => ALL_SONGS@,
        Event::Playlist => PLAYLIST@,
    }
}

/// What a command tells the player to do.
pub open spec fn command_event(word: Seq<char>) -> Option<Event> {
    if word == PLAY@ {
        Some(Event::Play)
    } else if word == PREV@ {
        Some(Event::Prev)
    } else if word == NEXT@ {
        Some(Event::Next)
    } else if word == STOP@ {
        Some(Event::Stop)
    } else if word == ALL_SONGS@ {
        Some(Event::AllSongs)
    } else if word == PLAYLIST@ {
        Some(Event::Playlist)
    } else {
        None
    }
}

/// What `str::to_lowercase` makes of a text.
pub uninterp spec fn lower_case(text: Seq<char>) -> Seq<char>;

/// Whether a character is white space: one of the characters that have the
/// property White_Space in Unicode.
pub open spec fn white_space(c: char) -> bool {
    let code = c as int;
    ||| 0x9 <= code <= 0xd
    ||| code == 0x20
    ||| code == 0x85
    ||| code == 0xa0
    ||| code == 0x1680
    ||| 0x2000 <= code <= 0x200a
    ||| code == 0x2028
    ||| code == 0x2029
    ||| code == 0x202f
    ||| code == 0x205f
    ||| code == 0x3000
}

/// The lower case of a letter of the ASCII alphabet; any other character stays.
pub open spec fn ascii_lower_case(c: char) -> char {
    if 'A' as int <= c as int <= 'Z' as int {
        (c as int + 32) as char
    } else {
        c
    }
}

/// Whether a character is white space.
fn is_white_space(c: char) -> (white: bool)
    ensures
        white == white_space(c),
{
    let code: u32 = c as u32;
    (0x9 <= code && code <= 0xd) || code == 0x20 || code == 0x85 || code == 0xa0 || code == 0x1680
        || (0x2000 <= code && code <= 0x200a) || code == 0x2028 || code == 0x2029 || code == 0x202f
        || code == 0x205f || code == 0x3000
}

/// Calls `str::to_lowercase`; [`lower_case`] names what it returns, and of a
/// text of ASCII characters the contract says it.
#[verifier::external_body]
fn to_lower_case(text: &str) -> (lower: String)
    ensures
        lower@ == lower_case(text@),
        vstd::utf8::is_ascii_chars(text@) ==> lower@ == text@.map_values(
            |c: char| ascii_lower_case(c),
        ),
{
    text.to_lowercase()
}

/// A text without the white space at its start.
pub open spec fn trimmed_start(text: Seq<char>) -> Seq<char>
    decreases text.len(),
{
    if text.len() > 0 && white_space(text[0]) {
        trimmed_start(text.skip(1))
    } else {
        text
    }
}

/// A text without the white space at its end.
pub open spec fn trimmed_end(text: Seq<char>) -> Seq<char>
    decreases text.len(),
{
    if text.len() > 0 && white_space(text.last()) {
        trimmed_end(text.drop_last())
    } else {
        text
    }
}

/// A text without the white space around it.
pub open spec fn trimmed(text: Seq<char>) -> Seq<char> {
    trimmed_end(trimmed_start(text))
}

/// What a line tells the player to do.
pub open spec fn line_event(line: Seq<char>) -> Option<Event> {
    command_event(lower_case(trimmed(line)))
}

/// What a line tells the player to do whose words are of ASCII characters.
pub open spec fn ascii_line_event(line: Seq<char>) -> Option<Event> {
    command_event(trimmed(line).map_values(|c: char| ascii_lower_case(c)))
}

/// What the user is asked with.
pub open spec fn prompt_text() -> Seq<char> {
    "Command ("@ + PLAY@ + ", "@ + PREV@ + ", "@ + NEXT@ + ", "@ + STOP@ + ", "@ + ALL_SONGS@
        + ", "@ + PLAYLIST@ + "): "@
}

/// A text without the white space around it.
fn trim<'a>(text: &'a str) -> (result: &'a str)
    ensures
        result@ == trimmed(text@),
{
    let length: usize = text.unicode_len();
    let mut start: usize = 0;
    assert(text@.skip(0) == text@);
    while start < length && is_white_space(text.get_char(start))
        invariant
            start <= length,
            length == text@.len(),
            trimmed_start(text@) == trimmed_start(text@.skip(start as int)),
        decreases length - start,
    {
        assert(text@.skip(start as int).skip(1) == text@.skip(start + 1));
        start += 1;
    }
    let mut end: usize = length;
    assert(text@.subrange(start as int, end as int) == text@.skip(start as int));
    while start < end && is_white_space(text.get_char(end - 1))
        invariant
            start <= end <= length,
            length == text@.len(),
            trimmed(text@) == trimmed_end(text@.subrange(start as int, end as int)),
        decreases end - start,
    {
        assert(text@.subrange(start as int, end as int).drop_last() == text@.subrange(
            start as int,
            end - 1,
        ));
        end -= 1;
    }
    text.substring_char(start, end)
}

/// What the loop at the keyboard does next.
#[derive(Clone, Copy, Debug, PartialEq, Eq, Structural)]
pub enum LoopAction {
    /// Ask for a command and carry it out.
    Prompt,
    /// End the loop.
    Finish,
    /// End the loop with the fault of the last round.
    Fail,
}

/// One turn of the loop at the keyboard: it ends with the first round that failed,
/// or once it is cancelled.
pub fn next_round(cancelled: bool, failed: bool) -> (action: LoopAction)
    ensures
        action == (if failed {
            LoopAction::Fail
        } else if cancelled {
            LoopAction::Finish
        } else {
            LoopAction::Prompt
        }),
{
    if failed {
        LoopAction::Fail
    } else if cancelled {
        LoopAction::Finish
    } else {
        LoopAction::Prompt
    }
}

/// What the user is asked with.
pub fn prompt() -> (text: String)
    ensures
        text@ == prompt_text(),
{
    let mut text = "Command (".to_owned();
    text.append(PLAY);
    text.append(", ");
    text.append(PREV);
    text.append(", ");
    text.append(NEXT);
    text.append(", ");
    text.append(STOP);
    text.append(", ");
    text.append(ALL_SONGS);
    text.append(", ");
    text.append(PLAYLIST);
    text.append("): ");
    text
}

/// What a command tells the player to do, if it is one.
pub fn event_for_command(word: &str) -> (event: Option<Event>)
    ensures
        event == command_event(word@),
{
    if same_text(word, PLAY) {
        Some(Event::Play)
    } else if same_text(word, PREV) {
        Some(Event::Prev)
    } else if same_text(word, NEXT) {
        Some(Event::Next)
    } else if same_text(word, STOP) {
        Some(Event::Stop)
    } else if same_text(word, ALL_SONGS) {
        Some(Event::AllSongs)
    } else if same_text(word, PLAYLIST) {
        Some(Event::Playlist)
    } else {
        None
    }
}

/// What a line tells the player to do, if it holds a command. White space around
/// the command and the case of its letters do not matter.
pub fn event_for_line(line: &str) -> (event: Option<Event>)
    ensures
        event == line_event(line@),
        vstd::utf8::is_ascii_chars(trimmed(line@)) ==> event == ascii_line_event(line@),
{
    event_for_command(to_lower_case(trim(line)).as_str())
}

} // verus!
