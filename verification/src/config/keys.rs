//! The keys at the top of a configuration.
//!
//! The configuration crate reads such a key as a path: a name, followed by names
//! behind dots and by indices in brackets. An index makes a list that is long
//! enough to hold it. A key that is no path is taken as it is.
use vstd::prelude::*;

verus! {

/// A kind of characters that a path is made of.
#[derive(Clone, Copy, Debug, PartialEq, Eq, Structural)]
pub enum Class {
    /// What names are made of.
    Name,
    /// What may stand around an index.
    Blank,
    /// What indices are made of.
    Digit,
}

/// Whether a character is a digit.
pub open spec fn digit(c: char) -> bool {
    '0' as int <= c as int <= '9' as int
}

/// Whether a character is of a kind.
pub open spec fn in_class(c: char, class: Class) -> bool {
    match class {
        Class::Name => digit(c) || 'a' as int <= c as int <= 'z' as int || 'A' as int <= c as int
            <= 'Z' as int || c == '_' || c == '-',
        Class::Blank => c == ' ' || c == '\t',
        Class::Digit => digit(c),
    }
}

/// How many characters at the start of a text are of a kind.
pub open spec fn run(text: Seq<char>, class: Class) -> nat
    decreases text.len(),
{
    if text.len() > 0 && in_class(text[0], class) {
        1 + run(text.skip(1), class)
    } else {
        0
    }
}

/// The number that digits spell.
pub open spec fn number(digits: Seq<char>) -> nat
    decreases digits.len(),
{
    if digits.len() == 0 {
        0
    } else {
        10 * number(digits.drop_last()) + (digits.last() as int - '0' as int) as nat
    }
}

/// The index behind an opening bracket, and how many characters it takes up to and
/// with the closing bracket. There is none where something else stands there, or
/// where the number is out of the range of `isize`.
pub open spec fn index_at(text: Seq<char>) -> Option<(int, nat)> {
    let blanks = run(text, Class::Blank);
    let sign: nat = if blanks < text.len() && text[blanks as int] == '-' {
        1
    } else {
        0
    };
    let start = blanks + sign;
    let digits = run(text.skip(start as int), Class::Digit);
    let end = start + digits + run(text.skip((start + digits) as int), Class::Blank);
    let size = number(text.subrange(start as int, (start + digits) as int)) as int;
    let value = if sign == 1 {
        -size
    } else {
        size
    };
    if digits > 0 && end < text.len() && text[end as int] == ']' && isize::MIN <= value
        <= isize::MAX {
        Some((value, end + 1))
    } else {
        None
    }
}

/// How long the list has to be that an index asks for. A negative index counts from
/// the end of the list.
pub open spec fn list_length(index: int) -> int {
    if index >= 0 {
        index + 1
    } else {
        -index
    }
}

/// The greater of two lengths.
pub open spec fn longer(a: int, b: int) -> int {
    if a < b {
        b
    } else {
        a
    }
}

/// The length of the longest list that the rest of a path asks for, behind a name;
/// `None` where it is not the rest of a path.
pub open spec fn rest_list(rest: Seq<char>) -> Option<int>
    decreases rest.len(),
{
    if rest.len() == 0 {
        Some(0)
    } else if rest[0] == '[' {
        match index_at(rest.skip(1)) {
            Some((index, length)) => match rest_list(rest.skip(1 + length as int)) {
                Some(list) => Some(longer(list_length(index), list)),
                None => None,
            },
            None => None,
        }
    } else if rest[0] == '.' {
        let length = run(rest.skip(1), Class::Name);
        if length > 0 {
            proof {
                lemma_run(rest.skip(1), Class::Name);
            }
            rest_list(rest.skip(1 + length as int))
        } else {
            None
        }
    } else {
        None
    }
}

/// The length of the longest list that a path asks for, zero where it asks for
/// none; `None` where the key is no path.
pub open spec fn path_list(key: Seq<char>) -> Option<int> {
    let length = run(key, Class::Name);
    if length > 0 {
        rest_list(key.skip(length as int))
    } else {
        None
    }
}

/// How long a list of values can get. A list that grows doubles its room, and the
/// room of a list takes at most `isize::MAX` bytes.
pub open spec fn longest_list() -> int {
    let size = vstd::layout::size_of::<::config::Value>() as int;
    if size == 0 {
        isize::MAX as int
    } else {
        isize::MAX as int / (2 * size)
    }
}

/// Whether a key is a path with an index that no list can hold.
pub open spec fn large_index(key: Seq<char>) -> bool {
    path_list(key) matches Some(list) && list > longest_list()
}

/// The first key with an index that no list can hold.
pub open spec fn first_large_index(keys: Seq<Seq<char>>) -> Option<Seq<char>>
    decreases keys.len(),
{
    if keys.len() == 0 {
        None
    } else {
        match first_large_index(keys.drop_last()) {
            Some(key) => Some(key),
            None => if large_index(keys.last()) {
                Some(keys.last())
            } else {
                None
            },
        }
    }
}

/// What the first key with an index that no list can hold is.
pub proof fn law_first_large_index(keys: Seq<Seq<char>>)
    ensures
        match first_large_index(keys) {
            Some(key) => exists|i: int|
                0 <= i < keys.len() && #[trigger] keys[i] == key && large_index(keys[i]) && (
                forall|j: int| 0 <= j < i ==> !large_index(#[trigger] keys[j])),
            None => forall|i: int| 0 <= i < keys.len() ==> !large_index(#[trigger] keys[i]),
        },
    decreases keys.len(),
{
    if keys.len() > 0 {
        let front = keys.drop_last();
        law_first_large_index(front);
        match first_large_index(front) {
            Some(key) => {
                let i = choose|i: int|
                    0 <= i < front.len() && #[trigger] front[i] == key && large_index(front[i])
                        && (forall|j: int| 0 <= j < i ==> !large_index(#[trigger] front[j]));
                assert(keys[i] == key);
                assert forall|j: int| 0 <= j < i implies !large_index(#[trigger] keys[j]) by {
                    assert(front[j] == keys[j]);
                }
            },
            None => {
                assert forall|j: int| 0 <= j < front.len() implies !large_index(
                    #[trigger] keys[j],
                ) by {
                    assert(front[j] == keys[j]);
                }
                assert(keys[keys.len() - 1] == keys.last());
            },
        }
    }
}

/// A key without a bracket asks for no list.
pub proof fn law_no_bracket_no_list(key: Seq<char>)
    requires
        !key.contains('['),
    ensures
        !large_index(key),
{
    let length = run(key, Class::Name);
    lemma_run(key, Class::Name);
    let rest = key.skip(length as int);
    assert forall|i: int| 0 <= i < rest.len() implies rest[i] != '[' by {
        assert(rest[i] == key[i + length]);
        assert(key.contains(key[i + length]));
    }
    lemma_no_list(rest);
    assert(0 <= longest_list()) by {
        let size = vstd::layout::size_of::<::config::Value>() as int;
        if size > 0 {
            assert(isize::MAX as int / (2 * size) >= 0) by (nonlinear_arith)
                requires
                    size > 0,
            ;
        }
    }
}

proof fn lemma_no_list(rest: Seq<char>)
    requires
        forall|i: int| 0 <= i < rest.len() ==> rest[i] != '[',
    ensures
        rest_list(rest) matches Some(list) ==> list == 0,
    decreases rest.len(),
{
    if rest.len() > 0 && rest[0] == '.' {
        let length = run(rest.skip(1), Class::Name);
        lemma_run(rest.skip(1), Class::Name);
        let next = rest.skip(1 + length as int);
        assert forall|i: int| 0 <= i < next.len() implies next[i] != '[' by {
            assert(next[i] == rest[i + 1 + length]);
        }
        lemma_no_list(next);
    }
}

/// A run is not longer than its text, and its characters are of its kind.
pub proof fn lemma_run(text: Seq<char>, class: Class)
    ensures
        run(text, class) <= text.len(),
        forall|i: int| 0 <= i < run(text, class) ==> in_class(#[trigger] text[i], class),
    decreases text.len(),
{
    if text.len() > 0 && in_class(text[0], class) {
        lemma_run(text.skip(1), class);
        assert forall|i: int| 0 <= i < run(text, class) implies in_class(
            #[trigger] text[i],
            class,
        ) by {
            if i > 0 {
                assert(text.skip(1)[i - 1] == text[i]);
            }
        }
    }
}

/// Whether a character is of a kind.
fn is_in_class(c: char, class: Class) -> (result: bool)
    ensures
        result == in_class(c, class),
{
    match class {
        Class::Name => ('0' <= c && c <= '9') || ('a' <= c && c <= 'z') || ('A' <= c && c <= 'Z')
            || c == '_' || c == '-',
        Class::Blank => c == ' ' || c == '\t',
        Class::Digit => '0' <= c && c <= '9',
    }
}

/// Where the run of a kind ends that begins at a place in a key.
fn run_end(key: &str, from: usize, class: Class) -> (end: usize)
    requires
        from <= key@.len(),
    ensures
        from <= end <= key@.len(),
        end == from + run(key@.skip(from as int), class),
{
    let length: usize = key.unicode_len();
    let mut end: usize = from;
    while end < length && is_in_class(key.get_char(end), class)
        invariant
            from <= end <= length,
            length == key@.len(),
            run(key@.skip(from as int), class) == end - from + run(key@.skip(end as int), class),
        decreases length - end,
    {
        assert(key@.skip(end as int).skip(1) == key@.skip(end + 1));
        end += 1;
    }
    end
}

/// The number that the digits between two places in a key spell; `None` where it
/// is out of the range of `u64`.
fn number_between(key: &str, start: usize, end: usize) -> (result: Option<u64>)
    requires
        start <= end <= key@.len(),
        forall|i: int| start <= i < end ==> digit(#[trigger] key@[i]),
    ensures
        match result {
            Some(value) => number(key@.subrange(start as int, end as int)) == value,
            None => number(key@.subrange(start as int, end as int)) > u64::MAX,
        },
{
    let mut value: Option<u64> = Some(0);
    let mut at: usize = start;
    while at < end
        invariant
            start <= at <= end <= key@.len(),
            forall|i: int| start <= i < end ==> digit(#[trigger] key@[i]),
            match value {
                Some(v) => number(key@.subrange(start as int, at as int)) == v,
                None => number(key@.subrange(start as int, at as int)) > u64::MAX,
            },
        decreases end - at,
    {
        let ghost longer_digits = key@.subrange(start as int, at + 1);
        assert(longer_digits.drop_last() == key@.subrange(start as int, at as int));
        assert(longer_digits.last() == key@[at as int]);
        assert(digit(key@[at as int]));
        let last: u128 = (key.get_char(at) as u32 - '0' as u32) as u128;
        value = match value {
            Some(v) => {
                let next: u128 = v as u128 * 10 + last;
                if next <= u64::MAX as u128 {
                    Some(next as u64)
                } else {
                    None
                }
            },
            None => None,
        };
        at += 1;
    }
    value
}

/// The length of the list that the index behind an opening bracket asks for, and
/// where the path goes on.
fn read_index(key: &str, from: usize) -> (read: Option<(u128, usize)>)
    requires
        from <= key@.len(),
    ensures
        match read {
            Some((list, next)) => index_at(key@.skip(from as int)) matches Some((index, length))
                && list == list_length(index) && next == from + length && next <= key@.len(),
            None => index_at(key@.skip(from as int)) is None,
        },
{
    let ghost text = key@.skip(from as int);
    let length: usize = key.unicode_len();
    let blanks_end: usize = run_end(key, from, Class::Blank);
    let negative: bool = blanks_end < length && key.get_char(blanks_end) == '-';
    let start: usize = if negative {
        blanks_end + 1
    } else {
        blanks_end
    };
    let digits_end: usize = run_end(key, start, Class::Digit);
    let end: usize = run_end(key, digits_end, Class::Blank);
    proof {
        assert(text.skip(start - from) == key@.skip(start as int));
        assert(text.skip(digits_end - from) == key@.skip(digits_end as int));
        assert(text.subrange(start - from, digits_end - from) == key@.subrange(
            start as int,
            digits_end as int,
        ));
        lemma_run(key@.skip(start as int), Class::Digit);
        assert forall|i: int| start <= i < digits_end implies digit(#[trigger] key@[i]) by {
            assert(in_class(key@.skip(start as int)[i - start], Class::Digit));
        }
    }
    if digits_end == start || end >= length || key.get_char(end) != ']' {
        return None;
    }
    let size: u128 = match number_between(key, start, digits_end) {
        Some(size) => size as u128,
        None => {
            return None;
        },
    };
    let most: u128 = isize::MAX as u128;
    if negative {
        if size > most + 1 {
            return None;
        }
        let list: u128 = if size == 0 {
            1
        } else {
            size
        };
        Some((list, end + 1))
    } else {
        if size > most {
            return None;
        }
        Some((size + 1, end + 1))
    }
}

/// What is left to find out of a path of which a list is known already.
spec fn with_list(known: int, rest: Option<int>) -> Option<int> {
    match rest {
        Some(list) => Some(longer(known, list)),
        None => None,
    }
}

/// The length of the longest list that a path asks for.
fn find_path_list(key: &str) -> (list: Option<u128>)
    ensures
        match list {
            Some(l) => path_list(key@) == Some(l as int),
            None => path_list(key@) is None,
        },
{
    let length: usize = key.unicode_len();
    let name_end: usize = run_end(key, 0, Class::Name);
    assert(key@.skip(0) == key@);
    if name_end == 0 {
        return None;
    }
    let mut list: u128 = 0;
    let mut at: usize = name_end;
    proof {
        lemma_lists_have_a_length(key@.skip(at as int));
    }
    while at < length
        invariant
            at <= length,
            length == key@.len(),
            name_end > 0,
            name_end == run(key@, Class::Name),
            path_list(key@) == with_list(list as int, rest_list(key@.skip(at as int))),
        decreases length - at,
    {
        let ghost rest = key@.skip(at as int);
        assert(rest.skip(1) == key@.skip(at + 1));
        if key.get_char(at) == '[' {
            match read_index(key, at + 1) {
                Some((index_list, next)) => {
                    assert(rest.skip(next - at) == key@.skip(next as int));
                    if list < index_list {
                        list = index_list;
                    }
                    at = next;
                },
                None => {
                    return None;
                },
            }
        } else if key.get_char(at) == '.' {
            let next: usize = run_end(key, at + 1, Class::Name);
            if next == at + 1 {
                return None;
            }
            assert(rest.skip(next - at) == key@.skip(next as int));
            at = next;
        } else {
            return None;
        }
    }
    Some(list)
}

/// No list has a negative length.
proof fn lemma_lists_have_a_length(rest: Seq<char>)
    ensures
        rest_list(rest) matches Some(list) ==> list >= 0,
    decreases rest.len(),
{
    if rest.len() > 0 {
        if rest[0] == '[' {
            match index_at(rest.skip(1)) {
                Some((_, length)) => {
                    lemma_lists_have_a_length(rest.skip(1 + length as int));
                },
                None => {},
            }
        } else if rest[0] == '.' {
            let length = run(rest.skip(1), Class::Name);
            lemma_run(rest.skip(1), Class::Name);
            lemma_lists_have_a_length(rest.skip(1 + length as int));
        }
    }
}

/// Whether a key is a path with an index that no list can hold.
pub fn has_large_index(key: &str) -> (large: bool)
    ensures
        large == large_index(key@),
{
    let size: u128 = std::mem::size_of::<::config::Value>() as u128;
    let most: u128 = isize::MAX as u128;
    let longest: u128 = if size == 0 {
        most
    } else {
        most / (2 * size)
    };
    match find_path_list(key) {
        Some(list) => list > longest,
        None => false,
    }
}

/// The first key with an index that no list can hold, if there is one.
pub fn find_large_index(keys: &Vec<String>) -> (found: Option<String>)
    ensures
        crate::text::optional_text(found) == first_large_index(crate::text::texts(keys@)),
{
    let ghost all = crate::text::texts(keys@);
    assert(all.take(0) =~= seq![]);
    for i in 0..keys.len()
        invariant
            all == crate::text::texts(keys@),
            first_large_index(all.take(i as int)) is None,
    {
        proof {
            assert(all.take(i + 1).drop_last() == all.take(i as int));
            assert(all.take(i + 1).last() == keys@[i as int]@);
        }
        if has_large_index(keys[i].as_str()) {
            proof {
                lemma_found(all, i + 1);
            }
            return Some(keys[i].clone());
        }
    }
    assert(all.take(all.len() as int) == all);
    None
}

/// A key that is the first among the first keys is the first of all.
proof fn lemma_found(keys: Seq<Seq<char>>, count: int)
    requires
        0 <= count <= keys.len(),
        first_large_index(keys.take(count)) is Some,
    ensures
        first_large_index(keys) == first_large_index(keys.take(count)),
    decreases keys.len(),
{
    if count == keys.len() {
        assert(keys.take(count) == keys);
    } else {
        assert(keys.drop_last().take(count) == keys.take(count));
        lemma_found(keys.drop_last(), count);
    }
}

/// The characters of each kind, one by one.
pub proof fn law_classes(c: char)
    ensures
        in_class(c, Class::Digit) <==> "0123456789"@.contains(c),
        in_class(c, Class::Blank) <==> c == ' ' || c == '\t',
        in_class(c, Class::Name) <==> ("0123456789"@.contains(c)
            || "abcdefghijklmnopqrstuvwxyz"@.contains(c) || "ABCDEFGHIJKLMNOPQRSTUVWXYZ"@.contains(c)
            || c == '_' || c == '-'),
{
    reveal_strlit("0123456789");
    reveal_strlit("abcdefghijklmnopqrstuvwxyz");
    reveal_strlit("ABCDEFGHIJKLMNOPQRSTUVWXYZ");
    if digit(c) {
        assert("0123456789"@[c as int - '0' as int] == c);
    }
    if 'a' as int <= c as int <= 'z' as int {
        assert("abcdefghijklmnopqrstuvwxyz"@[c as int - 'a' as int] == c);
    }
    if 'A' as int <= c as int <= 'Z' as int {
        assert("ABCDEFGHIJKLMNOPQRSTUVWXYZ"@[c as int - 'A' as int] == c);
    }
}

/// Digits spell a number in the decimal system.
pub proof fn law_number(digits: Seq<char>, value: int)
    requires
        0 <= value < 10,
    ensures
        number(Seq::empty()) == 0,
        number(digits.push("0123456789"@[value])) == 10 * number(digits) + value,
{
    reveal_strlit("0123456789");
    assert(digits.push("0123456789"@[value]).drop_last() =~= digits);
}

/// A list can get as long as its doubled room allows, and no longer.
pub proof fn law_longest_list()
    requires
        vstd::layout::size_of::<::config::Value>() > 0,
    ensures
        longest_list() * (2 * vstd::layout::size_of::<::config::Value>()) <= isize::MAX,
        (longest_list() + 1) * (2 * vstd::layout::size_of::<::config::Value>()) > isize::MAX,
{
    let room = 2 * vstd::layout::size_of::<::config::Value>() as int;
    let most = isize::MAX as int;
    let longest = most / room;
    assert(longest * room <= most && (longest + 1) * room > most) by (nonlinear_arith)
        requires
            room > 0,
            longest == most / room,
    ;
}

/// The characters of a kind at the start of a text are its run.
proof fn lemma_run_of(start: Seq<char>, rest: Seq<char>, class: Class)
    requires
        forall|i: int| 0 <= i < start.len() ==> in_class(#[trigger] start[i], class),
        rest.len() > 0 ==> !in_class(rest[0], class),
    ensures
        run(start + rest, class) == start.len(),
    decreases start.len(),
{
    if start.len() == 0 {
        assert(start + rest =~= rest);
    } else {
        assert(in_class(start[0], class));
        assert((start + rest)[0] == start[0]);
        assert((start + rest).skip(1) =~= start.skip(1) + rest);
        assert forall|i: int| 0 <= i < start.skip(1).len() implies in_class(
            #[trigger] start.skip(1)[i],
            class,
        ) by {
            assert(in_class(start[i + 1], class));
        }
        lemma_run_of(start.skip(1), rest, class);
    }
}

/// A path is a name and what follows it, and a name behind a dot asks for no list.
pub proof fn law_names_in_paths(name: Seq<char>, rest: Seq<char>)
    requires
        name.len() > 0,
        forall|i: int| 0 <= i < name.len() ==> in_class(#[trigger] name[i], Class::Name),
        rest.len() > 0 ==> !in_class(rest[0], Class::Name),
    ensures
        path_list(name + rest) == rest_list(rest),
        rest_list(seq!['.'] + name + rest) == rest_list(rest),
        path_list(rest) is None,
        rest_list(Seq::empty()) == Some(0int),
        rest.len() > 0 && rest[0] != '.' && rest[0] != '[' ==> rest_list(rest) is None,
        rest_list(seq!['.'] + rest) is None,
{
    lemma_run_of(name, rest, Class::Name);
    assert((name + rest).skip(name.len() as int) =~= rest);
    let dotted = seq!['.'] + name + rest;
    assert(dotted.skip(1) =~= name + rest);
    assert(dotted.skip(1 + name.len() as int) =~= rest);
    assert((seq!['.'] + rest).skip(1) =~= rest);
    lemma_run_of(Seq::empty(), rest, Class::Name);
    assert(Seq::<char>::empty() + rest =~= rest);
}

/// An index in brackets, with blanks around it and a minus sign before it or not,
/// asks for a list that holds it: as long as the index and one more, or, of a
/// negative index, as long as it is far from the end. A number out of the range of
/// `isize` is no index.
pub proof fn law_indices_in_paths(
    blanks: Seq<char>,
    negative: bool,
    digits: Seq<char>,
    more_blanks: Seq<char>,
    rest: Seq<char>,
)
    requires
        forall|i: int| 0 <= i < blanks.len() ==> in_class(#[trigger] blanks[i], Class::Blank),
        digits.len() > 0,
        forall|i: int| 0 <= i < digits.len() ==> in_class(#[trigger] digits[i], Class::Digit),
        forall|i: int|
            0 <= i < more_blanks.len() ==> in_class(#[trigger] more_blanks[i], Class::Blank),
    ensures
        ({
            let sign: Seq<char> = if negative {
                seq!['-']
            } else {
                seq![]
            };
            let asked = rest_list(
                seq!['['] + blanks + sign + digits + more_blanks + seq![']'] + rest,
            );
            let value = if negative {
                -(number(digits) as int)
            } else {
                number(digits) as int
            };
            let list = if value < 0 {
                -value
            } else {
                value + 1
            };
            if isize::MIN <= value <= isize::MAX {
                match rest_list(rest) {
                    Some(other) => asked == Some(
                        if list < other {
                            other
                        } else {
                            list
                        },
                    ),
                    None => asked is None,
                }
            } else {
                asked is None
            }
        }),
{
    let sign: Seq<char> = if negative {
        seq!['-']
    } else {
        seq![]
    };
    let closing = seq![']'] + rest;
    let text = blanks + sign + digits + more_blanks + closing;
    let whole = seq!['['] + blanks + sign + digits + more_blanks + seq![']'] + rest;
    assert(whole.skip(1) =~= text);
    let b = blanks.len() as int;
    let start = b + sign.len();
    let d = digits.len() as int;
    let behind_blanks = sign + digits + more_blanks + closing;
    assert(text =~= blanks + behind_blanks);
    assert(in_class(digits[0], Class::Digit));
    assert(behind_blanks[0] == if negative {
        '-'
    } else {
        digits[0]
    });
    lemma_run_of(blanks, behind_blanks, Class::Blank);
    assert(text[b] == behind_blanks[0]);
    let behind_digits = more_blanks + closing;
    assert(text.skip(start) =~= digits + behind_digits);
    assert(behind_digits[0] == if more_blanks.len() > 0 {
        more_blanks[0]
    } else {
        ']'
    });
    if more_blanks.len() > 0 {
        assert(in_class(more_blanks[0], Class::Blank));
    }
    lemma_run_of(digits, behind_digits, Class::Digit);
    assert(text.skip(start + d) =~= more_blanks + closing);
    lemma_run_of(more_blanks, closing, Class::Blank);
    let end = start + d + more_blanks.len();
    assert(text[end] == ']');
    assert(text.subrange(start, start + d) =~= digits);
    assert(whole.skip(1 + (end + 1)) =~= rest);
    assert(whole[0] == '[');
}

/// A bracket that no index and closing bracket follow makes a key no path.
pub proof fn law_open_brackets(text: Seq<char>)
    requires
        rest_list(seq!['['] + text) is Some,
    ensures
        exists|start: int, end: int, close: int| #[trigger]
            index_stands(text, start, end, close),
{
    let whole = seq!['['] + text;
    assert(whole.skip(1) =~= text);
    let blanks = run(text, Class::Blank);
    lemma_run(text, Class::Blank);
    let sign: nat = if blanks < text.len() && text[blanks as int] == '-' {
        1
    } else {
        0
    };
    let start = (blanks + sign) as int;
    lemma_run(text.skip(start), Class::Digit);
    let end = start + run(text.skip(start), Class::Digit);
    lemma_run(text.skip(end), Class::Blank);
    let close = end + run(text.skip(end), Class::Blank);
    assert forall|i: int| start <= i < end implies in_class(#[trigger] text[i], Class::Digit) by {
        assert(in_class(text.skip(start)[i - start], Class::Digit));
    }
    assert forall|i: int| end <= i < close implies in_class(#[trigger] text[i], Class::Blank) by {
        assert(in_class(text.skip(end)[i - end], Class::Blank));
    }
    assert(index_stands(text, start, end, close));
}

/// Whether digits stand between the first two places of a text, a closing bracket
/// at the third, blanks in between, and only blanks and a minus sign before.
pub open spec fn index_stands(text: Seq<char>, start: int, end: int, close: int) -> bool {
    &&& 0 <= start < end <= close < text.len()
    &&& text[close] == ']'
    &&& forall|i: int| start <= i < end ==> in_class(#[trigger] text[i], Class::Digit)
    &&& forall|i: int| end <= i < close ==> in_class(#[trigger] text[i], Class::Blank)
    &&& forall|i: int|
        0 <= i < start ==> in_class(#[trigger] text[i], Class::Blank) || (i == start - 1 && text[i]
            == '-')
}

/// A key is refused exactly if it is a path that asks for a list longer than a list
/// can get.
pub proof fn law_refused_keys(key: Seq<char>, list: int)
    ensures
        path_list(key) is None ==> !large_index(key),
        path_list(key) == Some(list) ==> (large_index(key) <==> list > longest_list()),
{
}

} // verus!
