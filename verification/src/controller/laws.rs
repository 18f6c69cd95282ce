//! What holds of the controllers together.
use vstd::prelude::*;

use crate::controller::osc::{DriverAction, DriverEvent, DriverEventView};
use crate::controller::Event;
use crate::net::SocketAddr;
use crate::osc::packet::{OscMessageView, OscPacket, OscPacketView};
use crate::osc::receiver::{
    DeliveryView, ReceiverActionView, ReceiverEventView, ResponseToOscView,
};
use crate::osc::sender::OscOutMessageView;

verus! {

/// A command is read as what it stands for, and nothing else is read so.
pub proof fn law_commands(event: Event, word: Seq<char>)
    ensures
        crate::controller::keyboard::command_event(word) == Some(event) <==> word
            == crate::controller::keyboard::command(event),
{
    match crate::controller::keyboard::command_event(word) {
        Some(read) => {
            assert(word == crate::controller::keyboard::command(read));
            if read != event {
                lemma_commands_differ(read, event);
            }
        },
        None => {},
    }
}

/// An address is read as what it stands for, and nothing else is read so.
pub proof fn law_addresses(event: Event, address: Seq<char>)
    ensures
        crate::controller::osc::address_event(address) == Some(event) <==> address
            == crate::controller::osc::command_address(event),
{
    match crate::controller::osc::address_event(address) {
        Some(read) => {
            assert(address == crate::controller::osc::command_address(read));
            if read != event {
                lemma_addresses_differ(read, event);
            }
        },
        None => {},
    }
}

/// The keyboard and OSC have the same commands: the address of a command is the
/// driver's, followed by the command.
pub proof fn law_controllers_agree(event: Event)
    ensures
        crate::controller::osc::command_address(event) == "/driver/"@
            + crate::controller::keyboard::command(event),
{
    lemma_reveal_commands();
    lemma_reveal_addresses();
    reveal_strlit("/driver/");
    assert(crate::controller::osc::command_address(event) =~= "/driver/"@
        + crate::controller::keyboard::command(event));
}

/// A message with the address of a command, whatever its arguments, is handed to
/// the driver by the receiving side, and the driver tells the player.
pub proof fn law_commands_reach_the_player(
    event: Event,
    message: OscMessageView,
    client: SocketAddr,
)
    requires
        message.addr == crate::controller::osc::command_address(event),
    ensures
        crate::osc::receiver::response_to(OscPacketView::Message(message), Some(client))
            == ResponseToOscView::Driver(OscPacketView::Message(message), client),
        crate::controller::osc::packet_action(OscPacketView::Message(message))
            == DriverAction::Emit(event),
{
    law_addresses(event, message.addr);
    lemma_reveal_addresses();
    reveal_strlit("driver");
    crate::text::lemma_segment(message.addr, 0, 7);
    assert(message.addr.subrange(1, 7) =~= "driver"@);
}

/// The same of the loops: a datagram that holds such a message makes the receiving
/// loop hand it to the driver and register the client, and the driver's loop then
/// tells the player.
pub proof fn law_datagrams_reach_the_player(
    event: Event,
    bytes: Seq<u8>,
    message: OscMessageView,
    client: SocketAddr,
)
    requires
        crate::osc::wire::reads_back(bytes, OscPacketView::Message(message)),
        message.addr == crate::controller::osc::command_address(event),
    ensures
        crate::osc::receiver::receiver_action(ReceiverEventView::Datagram(bytes, client))
            == ReceiverActionView::Deliver(
            seq![
                DeliveryView::ToDriver(OscPacketView::Message(message)),
                DeliveryView::ToSender(OscOutMessageView::AddRecipient(client)),
            ],
        ),
        crate::controller::osc::driver_action(
            DriverEventView::Received(Some(OscPacketView::Message(message))),
        ) == DriverAction::Emit(event),
{
    law_commands_reach_the_player(event, message, client);
}

/// The case of a command's letters and the white space around it do not matter.
pub proof fn law_case_and_white_space(
    event: Event,
    before: Seq<char>,
    word: Seq<char>,
    after: Seq<char>,
)
    requires
        forall|i: int|
            0 <= i < before.len() ==> crate::controller::keyboard::white_space(
                #[trigger] before[i],
            ),
        forall|i: int|
            0 <= i < after.len() ==> crate::controller::keyboard::white_space(#[trigger] after[i]),
        word.map_values(|c: char| crate::controller::keyboard::ascii_lower_case(c))
            == crate::controller::keyboard::command(event),
    ensures
        crate::controller::keyboard::ascii_line_event(before + word + after) == Some(event),
        vstd::utf8::is_ascii_chars(
            crate::controller::keyboard::trimmed(before + word + after),
        ),
{
    let lower = |c: char| crate::controller::keyboard::ascii_lower_case(c);
    let command = crate::controller::keyboard::command(event);
    law_commands(event, command);
    lemma_reveal_commands();
    assert(word.map_values(lower).len() == word.len());
    assert(command.len() > 0);
    assert(word.map_values(lower)[0] == lower(word[0]));
    assert(word.map_values(lower)[word.len() - 1] == lower(word[word.len() - 1]));
    assert(!crate::controller::keyboard::white_space(word[0]));
    assert(!crate::controller::keyboard::white_space(word.last()));
    lemma_trim_start(before, word + after);
    assert(before + word + after =~= before + (word + after));
    assert((word + after)[0] == word[0]);
    assert(crate::controller::keyboard::trimmed_start(word + after) == word + after);
    lemma_trim_end(word, after);
    assert forall|i: int| 0 <= i < word.len() implies (word[i] as int) < 128 by {
        assert(command[i] == lower(word[i]));
        assert((command[i] as int) < 128);
    }
}

proof fn lemma_trim_start(before: Seq<char>, rest: Seq<char>)
    requires
        forall|i: int|
            0 <= i < before.len() ==> crate::controller::keyboard::white_space(
                #[trigger] before[i],
            ),
    ensures
        crate::controller::keyboard::trimmed_start(before + rest)
            == crate::controller::keyboard::trimmed_start(rest),
    decreases before.len(),
{
    if before.len() == 0 {
        assert(before + rest =~= rest);
    } else {
        assert(crate::controller::keyboard::white_space(before[0]));
        assert((before + rest)[0] == before[0]);
        assert((before + rest).skip(1) =~= before.skip(1) + rest);
        assert forall|i: int|
            0 <= i < before.skip(1).len() implies crate::controller::keyboard::white_space(
            #[trigger] before.skip(1)[i],
        ) by {
            assert(crate::controller::keyboard::white_space(before[i + 1]));
        }
        lemma_trim_start(before.skip(1), rest);
    }
}

proof fn lemma_trim_end(word: Seq<char>, after: Seq<char>)
    requires
        word.len() > 0,
        !crate::controller::keyboard::white_space(word.last()),
        forall|i: int|
            0 <= i < after.len() ==> crate::controller::keyboard::white_space(#[trigger] after[i]),
    ensures
        crate::controller::keyboard::trimmed_end(word + after) == word,
    decreases after.len(),
{
    if after.len() == 0 {
        assert(word + after =~= word);
    } else {
        assert(crate::controller::keyboard::white_space(after[after.len() - 1]));
        assert((word + after).last() == after.last());
        assert((word + after).drop_last() =~= word + after.drop_last());
        assert forall|i: int|
            0 <= i < after.drop_last().len() implies crate::controller::keyboard::white_space(
            #[trigger] after.drop_last()[i],
        ) by {
            assert(crate::controller::keyboard::white_space(after[i]));
        }
        lemma_trim_end(word, after.drop_last());
    }
}

proof fn lemma_reveal_commands()
    ensures
        crate::controller::keyboard::PLAY@ =~= seq!['p', 'l', 'a', 'y'],
        crate::controller::keyboard::PREV@ =~= seq!['p', 'r', 'e', 'v'],
        crate::controller::keyboard::NEXT@ =~= seq!['n', 'e', 'x', 't'],
        crate::controller::keyboard::STOP@ =~= seq!['s', 't', 'o', 'p'],
        crate::controller::keyboard::ALL_SONGS@ =~= seq![
            'a',
            'l',
            'l',
            '_',
            's',
            'o',
            'n',
            'g',
            's',
        ],
        crate::controller::keyboard::PLAYLIST@ =~= seq!['p', 'l', 'a', 'y', 'l', 'i', 's', 't'],
{
    reveal_strlit("play");
    reveal_strlit("prev");
    reveal_strlit("next");
    reveal_strlit("stop");
    reveal_strlit("all_songs");
    reveal_strlit("playlist");
}

proof fn lemma_reveal_addresses()
    ensures
        "/driver/play"@ =~= seq!['/', 'd', 'r', 'i', 'v', 'e', 'r', '/', 'p', 'l', 'a', 'y'],
        "/driver/prev"@ =~= seq!['/', 'd', 'r', 'i', 'v', 'e', 'r', '/', 'p', 'r', 'e', 'v'],
        "/driver/next"@ =~= seq!['/', 'd', 'r', 'i', 'v', 'e', 'r', '/', 'n', 'e', 'x', 't'],
        "/driver/stop"@ =~= seq!['/', 'd', 'r', 'i', 'v', 'e', 'r', '/', 's', 't', 'o', 'p'],
        "/driver/all_songs"@ =~= seq![
            '/',
            'd',
            'r',
            'i',
            'v',
            'e',
            'r',
            '/',
            'a',
            'l',
            'l',
            '_',
            's',
            'o',
            'n',
            'g',
            's',
        ],
        "/driver/playlist"@ =~= seq![
            '/',
            'd',
            'r',
            'i',
            'v',
            'e',
            'r',
            '/',
            'p',
            'l',
            'a',
            'y',
            'l',
            'i',
            's',
            't',
        ],
{
    reveal_strlit("/driver/play");
    reveal_strlit("/driver/prev");
    reveal_strlit("/driver/next");
    reveal_strlit("/driver/stop");
    reveal_strlit("/driver/all_songs");
    reveal_strlit("/driver/playlist");
}

/// No two commands are the same.
proof fn lemma_commands_differ(a: Event, b: Event)
    requires
        a != b,
    ensures
        crate::controller::keyboard::command(a) != crate::controller::keyboard::command(b),
{
    lemma_reveal_commands();
    let x = crate::controller::keyboard::command(a);
    let y = crate::controller::keyboard::command(b);
    assert(x.len() != y.len() || x[0] != y[0] || x[1] != y[1]);
}

/// No two addresses are the same.
proof fn lemma_addresses_differ(a: Event, b: Event)
    requires
        a != b,
    ensures
        crate::controller::osc::command_address(a) != crate::controller::osc::command_address(b),
{
    lemma_reveal_addresses();
    let x = crate::controller::osc::command_address(a);
    let y = crate::controller::osc::command_address(b);
    assert(x.len() != y.len() || x[8] != y[8] || x[9] != y[9]);
}

/// The commands, word by word, and what the user is asked with.
pub proof fn law_words()
    ensures
        crate::controller::keyboard::command(Event::Play) == "play"@,
        crate::controller::keyboard::command(Event::Prev) == "prev"@,
        crate::controller::keyboard::command(Event::Next) == "next"@,
        crate::controller::keyboard::command(Event::Stop) == "stop"@,
        crate::controller::keyboard::command(Event::AllSongs) == "all_songs"@,
        crate::controller::keyboard::command(Event::Playlist) == "playlist"@,
        crate::controller::keyboard::prompt_text()
            == "Command (play, prev, next, stop, all_songs, playlist): "@,
{
    lemma_reveal_commands();
    reveal_strlit("play");
    reveal_strlit("prev");
    reveal_strlit("next");
    reveal_strlit("stop");
    reveal_strlit("all_songs");
    reveal_strlit("playlist");
    reveal_strlit("Command (");
    reveal_strlit(", ");
    reveal_strlit("): ");
    reveal_strlit("Command (play, prev, next, stop, all_songs, playlist): ");
    assert(crate::controller::keyboard::prompt_text()
        =~= "Command (play, prev, next, stop, all_songs, playlist): "@);
}

/// A word that is no command tells the player nothing, and neither does an address.
pub proof fn law_nothing_else_is_a_command(word: Seq<char>, address: Seq<char>)
    ensures
        crate::controller::keyboard::command_event(word) is Some <==> (word == "play"@ || word
            == "prev"@ || word == "next"@ || word == "stop"@ || word == "all_songs"@ || word
            == "playlist"@),
        crate::controller::osc::address_event(address) is Some <==> (address == "/driver/play"@
            || address == "/driver/prev"@ || address == "/driver/next"@ || address
            == "/driver/stop"@ || address == "/driver/all_songs"@ || address
            == "/driver/playlist"@),
{
    law_words();
    lemma_reveal_commands();
    reveal_strlit("play");
    reveal_strlit("prev");
    reveal_strlit("next");
    reveal_strlit("stop");
    reveal_strlit("all_songs");
    reveal_strlit("playlist");
}

/// What the driver does: it tells the player what the address of a message stands
/// for, passes over what stands for nothing, and ends with its channel.
pub proof fn law_driver_turn(
    message: OscMessageView,
    bundle: ::rosc::OscBundle,
    event: Event,
    packet: OscPacket,
)
    ensures
        message.addr == crate::controller::osc::command_address(event)
            ==> crate::controller::osc::driver_action(
            DriverEventView::Received(Some(OscPacketView::Message(message))),
        ) == DriverAction::Emit(event),
        (forall|e: Event| message.addr != #[trigger] crate::controller::osc::command_address(e))
            ==> crate::controller::osc::driver_action(
            DriverEventView::Received(Some(OscPacketView::Message(message))),
        ) == DriverAction::UnknownAddress,
        crate::controller::osc::driver_action(
            DriverEventView::Received(Some(OscPacketView::Bundle(bundle))),
        ) == DriverAction::UnsupportedBundle,
        crate::controller::osc::driver_action(DriverEventView::Received(None))
            == DriverAction::Nothing,
        crate::controller::osc::driver_action(DriverEventView::Closed) == DriverAction::Finish,
        crate::controller::osc::packet_action(OscPacketView::Message(message))
            == crate::controller::osc::driver_action(
            DriverEventView::Received(Some(OscPacketView::Message(message))),
        ),
        crate::controller::osc::packet_action(OscPacketView::Bundle(bundle))
            == DriverAction::UnsupportedBundle,
        DriverEvent::Closed@ == DriverEventView::Closed,
        DriverEvent::Received(None)@ == DriverEventView::Received(None),
        DriverEvent::Received(Some(packet))@ == DriverEventView::Received(Some(packet@)),
{
    law_addresses(event, message.addr);
    match crate::controller::osc::address_event(message.addr) {
        Some(e) => {
            law_addresses(e, message.addr);
        },
        None => {},
    }
}

/// Whether a character is white space: it is one of these.
pub proof fn law_white_space(c: char)
    ensures
        crate::controller::keyboard::white_space(c) <==> seq![
            '\u{9}',
            '\u{a}',
            '\u{b}',
            '\u{c}',
            '\u{d}',
            '\u{20}',
            '\u{85}',
            '\u{a0}',
            '\u{1680}',
            '\u{2000}',
            '\u{2001}',
            '\u{2002}',
            '\u{2003}',
            '\u{2004}',
            '\u{2005}',
            '\u{2006}',
            '\u{2007}',
            '\u{2008}',
            '\u{2009}',
            '\u{200a}',
            '\u{2028}',
            '\u{2029}',
            '\u{202f}',
            '\u{205f}',
            '\u{3000}',
        ].contains(c),
{
    let all = seq![
        '\u{9}',
        '\u{a}',
        '\u{b}',
        '\u{c}',
        '\u{d}',
        '\u{20}',
        '\u{85}',
        '\u{a0}',
        '\u{1680}',
        '\u{2000}',
        '\u{2001}',
        '\u{2002}',
        '\u{2003}',
        '\u{2004}',
        '\u{2005}',
        '\u{2006}',
        '\u{2007}',
        '\u{2008}',
        '\u{2009}',
        '\u{200a}',
        '\u{2028}',
        '\u{2029}',
        '\u{202f}',
        '\u{205f}',
        '\u{3000}',
    ];
    if crate::controller::keyboard::white_space(c) {
        let code = c as int;
        let at = if code <= 0xd {
            code - 9
        } else if code == 0x20 {
            5
        } else if code == 0x85 {
            6
        } else if code == 0xa0 {
            7
        } else if code == 0x1680 {
            8
        } else if code <= 0x200a {
            code - 0x2000 + 9
        } else if code == 0x2028 {
            20
        } else if code == 0x2029 {
            21
        } else if code == 0x202f {
            22
        } else if code == 0x205f {
            23
        } else {
            24
        };
        assert(all[at] == c);
    }
}

/// The lower case of the letters of the ASCII alphabet, one by one; every other
/// character stays as it is.
pub proof fn law_ascii_lower_case(c: char, letter: int)
    requires
        0 <= letter < 26,
    ensures
        crate::controller::keyboard::ascii_lower_case("ABCDEFGHIJKLMNOPQRSTUVWXYZ"@[letter])
            == "abcdefghijklmnopqrstuvwxyz"@[letter],
        !"ABCDEFGHIJKLMNOPQRSTUVWXYZ"@.contains(c)
            ==> crate::controller::keyboard::ascii_lower_case(c) == c,
{
    reveal_strlit("ABCDEFGHIJKLMNOPQRSTUVWXYZ");
    reveal_strlit("abcdefghijklmnopqrstuvwxyz");
    if 'A' as int <= c as int <= 'Z' as int {
        assert("ABCDEFGHIJKLMNOPQRSTUVWXYZ"@[c as int - 'A' as int] == c);
    }
}

/// A text without the white space around it is what stands between, whatever white
/// space that is; of white space alone nothing is left.
pub proof fn law_trimmed(before: Seq<char>, text: Seq<char>, after: Seq<char>)
    requires
        forall|i: int|
            0 <= i < before.len() ==> crate::controller::keyboard::white_space(
                #[trigger] before[i],
            ),
        forall|i: int|
            0 <= i < after.len() ==> crate::controller::keyboard::white_space(#[trigger] after[i]),
        text.len() > 0 ==> !crate::controller::keyboard::white_space(text[0])
            && !crate::controller::keyboard::white_space(text.last()),
    ensures
        crate::controller::keyboard::trimmed(before + text + after) == text,
{
    lemma_trim_start(before, text + after);
    assert(before + text + after =~= before + (text + after));
    if text.len() > 0 {
        assert((text + after)[0] == text[0]);
        lemma_trim_end(text, after);
    } else {
        assert(text + after =~= after + Seq::<char>::empty());
        lemma_trim_start(after, Seq::empty());
        assert(text =~= Seq::<char>::empty());
    }
}

/// A line is read by what stands between its white space: in lower case it has to
/// be a command, and then the line stands for what the command does.
pub proof fn law_lines(
    event: Event,
    before: Seq<char>,
    text: Seq<char>,
    after: Seq<char>,
)
    requires
        forall|i: int|
            0 <= i < before.len() ==> crate::controller::keyboard::white_space(
                #[trigger] before[i],
            ),
        forall|i: int|
            0 <= i < after.len() ==> crate::controller::keyboard::white_space(#[trigger] after[i]),
        text.len() > 0 ==> !crate::controller::keyboard::white_space(text[0])
            && !crate::controller::keyboard::white_space(text.last()),
    ensures
        crate::controller::keyboard::line_event(before + text + after) == Some(event)
            <==> crate::controller::keyboard::lower_case(text)
            == crate::controller::keyboard::command(event),
        crate::controller::keyboard::ascii_line_event(before + text + after) == Some(event) <==> (
        text.len() == crate::controller::keyboard::command(event).len() && forall|i: int|
            0 <= i < text.len() ==> crate::controller::keyboard::ascii_lower_case(
                #[trigger] text[i],
            ) == crate::controller::keyboard::command(event)[i]),
{
    law_trimmed(before, text, after);
    law_commands(event, crate::controller::keyboard::lower_case(text));
    let lower = text.map_values(|c: char| crate::controller::keyboard::ascii_lower_case(c));
    law_commands(event, lower);
    let command = crate::controller::keyboard::command(event);
    if lower == command {
        assert forall|i: int|
            0 <= i < text.len() implies crate::controller::keyboard::ascii_lower_case(
            #[trigger] text[i],
        ) == command[i] by {
            assert(lower[i] == command[i]);
        }
    }
    if text.len() == command.len() && forall|i: int|
        0 <= i < text.len() ==> crate::controller::keyboard::ascii_lower_case(#[trigger] text[i])
            == command[i] {
        assert(lower =~= command);
    }
}

} // verus!
