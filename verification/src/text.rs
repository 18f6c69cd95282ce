//! Text helpers: comparing, copying and splitting.
use vstd::prelude::*;

verus! {

/// The pieces of `s` between the separators, in order, empty pieces included.
pub open spec fn split(s: Seq<char>, separator: char) -> Seq<Seq<char>>
    decreases s.len(),
{
    match s.index_of_first(separator) {
        Some(i) if 0 <= i < s.len() => seq![s.take(i)] + split(s.skip(i + 1), separator),
        _ => seq![s],
    }
}

/// What follows the first slash of an address, up to the next one: `song` in
/// `/song/select`. There is none in an address without a slash.
pub open spec fn first_segment(address: Seq<char>) -> Option<Seq<char>> {
    let pieces = split(address, '/');
    if pieces.len() > 1 {
        Some(pieces[1])
    } else {
        None
    }
}

/// The texts of a list of strings.
pub open spec fn texts(strings: Seq<String>) -> Seq<Seq<char>> {
    strings.map_values(|s: String| s@)
}

/// The text of an optional string.
pub open spec fn optional_text(string: Option<String>) -> Option<Seq<char>> {
    match string {
        Some(s) => Some(s@),
        None => None,
    }
}

/// Whether the two texts are the same.
pub fn same_text(a: &str, b: &str) -> (same: bool)
    ensures
        same == (a@ == b@),
{
    a.to_owned() == b.to_owned()
}

/// A copy of a list of strings.
pub fn copy_texts(strings: &Vec<String>) -> (copy: Vec<String>)
    ensures
        copy@ == strings@,
{
    let mut copy: Vec<String> = Vec::new();
    for i in 0..strings.len()
        invariant
            copy@ == strings@.take(i as int),
    {
        copy.push(strings[i].clone());
    }
    copy
}

/// A copy of an optional string.
pub fn copy_optional_text(string: &Option<String>) -> (copy: Option<String>)
    ensures
        copy == *string,
{
    match string {
        Some(s) => Some(s.clone()),
        None => None,
    }
}

/// The position of the first slash of `s` that is not before `from`, or the
/// length of `s` if there is none.
fn find_slash(s: &str, from: usize) -> (at: usize)
    requires
        from <= s@.len(),
    ensures
        from <= at <= s@.len(),
        at < s@.len() ==> s@[at as int] == '/',
        forall|i: int| from <= i < at ==> s@[i] != '/',
{
    let length: usize = s.unicode_len();
    let mut at: usize = from;
    while at < length && s.get_char(at) != '/'
        invariant
            from <= at <= length,
            length == s@.len(),
            forall|i: int| from <= i < at ==> s@[i] != '/',
        decreases length - at,
    {
        at += 1;
    }
    at
}

/// The first segment of an address, as [`first_segment`] describes it.
pub fn address_segment<'a>(address: &'a str) -> (segment: Option<&'a str>)
    ensures
        match segment {
            Some(s) => first_segment(address@) == Some(s@),
            None => first_segment(address@) is None,
        },
{
    let slash: usize = find_slash(address, 0);
    let length: usize = address.unicode_len();
    if slash == length {
        proof {
            lemma_no_segment(address@);
        }
        return None;
    }
    let end: usize = find_slash(address, slash + 1);
    proof {
        lemma_segment(address@, slash as int, end as int);
    }
    Some(address.substring_char(slash + 1, end))
}

/// An address whose first slash is at `slash` and whose next one is at `end`,
/// or which ends there, has what lies between as its first segment.
pub proof fn lemma_segment(address: Seq<char>, slash: int, end: int)
    requires
        0 <= slash < end <= address.len(),
        address[slash] == '/',
        end < address.len() ==> address[end] == '/',
        forall|i: int| 0 <= i < end && i != slash ==> address[i] != '/',
    ensures
        first_segment(address) == Some(address.subrange(slash + 1, end)),
{
    let rest = address.skip(slash + 1);
    lemma_split_at_first(address, '/', slash);
    lemma_split_at_first(rest, '/', end - (slash + 1));
    assert(rest.take(end - (slash + 1)) == address.subrange(slash + 1, end));
}

/// An address without a slash has no first segment.
pub proof fn lemma_no_segment(address: Seq<char>)
    requires
        forall|i: int| 0 <= i < address.len() ==> address[i] != '/',
    ensures
        first_segment(address) is None,
{
    lemma_split_at_first(address, '/', address.len() as int);
}

/// Splitting a text whose first separator is known.
proof fn lemma_split_at_first(s: Seq<char>, separator: char, at: int)
    requires
        0 <= at <= s.len(),
        at < s.len() ==> s[at] == separator,
        forall|i: int| 0 <= i < at ==> s[i] != separator,
    ensures
        at == s.len() ==> split(s, separator) == seq![s],
        at < s.len() ==> split(s, separator) == seq![s.take(at)] + split(s.skip(at + 1), separator),
        split(s, separator).len() > 0,
        split(s, separator)[0] == s.take(at),
{
    s.index_of_first_ensures(separator);
    assert(s.take(s.len() as int) == s);
    if at < s.len() {
        assert(s.contains(separator));
        let found = s.index_of_first(separator)->0;
        assert(found == at);
    }
}

/// What lies between the first slash of an address and the next one, or its end, is
/// its first segment.
pub proof fn law_first_segment(before: Seq<char>, segment: Seq<char>, after: Seq<char>)
    requires
        !before.contains('/'),
        !segment.contains('/'),
        after.len() > 0 ==> after[0] == '/',
    ensures
        first_segment(before + seq!['/'] + segment + after) == Some(segment),
        first_segment(before) is None,
{
    let address = before + seq!['/'] + segment + after;
    let slash = before.len() as int;
    let end = slash + 1 + segment.len();
    assert forall|i: int| 0 <= i < before.len() implies before[i] != '/' by {
        assert(before.contains(before[i]));
    }
    assert forall|i: int| 0 <= i < end && i != slash implies address[i] != '/' by {
        if i > slash {
            assert(segment.contains(segment[i - slash - 1]));
            assert(address[i] == segment[i - slash - 1]);
        } else {
            assert(address[i] == before[i]);
        }
    }
    lemma_segment(address, slash, end);
    assert(address.subrange(slash + 1, end) =~= segment);
    lemma_no_segment(before);
}

/// A list of strings has as many texts as strings, each that of its string.
pub proof fn law_texts(strings: Seq<String>, string: String)
    ensures
        texts(strings).len() == strings.len(),
        forall|i: int| 0 <= i < strings.len() ==> #[trigger] texts(strings)[i] == strings[i]@,
        optional_text(Some(string)) == Some(string@),
        optional_text(None) == None::<Seq<char>>,
{
}

} // verus!
