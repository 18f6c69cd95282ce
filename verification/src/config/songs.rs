//! The song definitions.
use vstd::prelude::*;

use crate::text::same_text;

verus! {

/// A song as its document defines it.
pub struct SongDocument {
    /// The title.
    pub name: String,
    /// The document, as YAML text.
    pub definition: String,
}

/// A song as it is configured: its document and the file that it is in.
pub struct SongConfig {
    /// The title.
    pub name: String,
    /// The document, as YAML text.
    pub definition: String,
    /// The file that the document is in.
    pub song_file: String,
}

/// A song.
pub struct Song {
    /// The title.
    pub name: String,
    /// The document that defines the song, as YAML text.
    pub definition: String,
    /// The file that the document is in.
    pub song_file: String,
}

/// A song, with texts as sequences.
pub struct SongView {
    pub name: Seq<char>,
    pub definition: Seq<char>,
    pub song_file: Seq<char>,
}

impl View for Song {
    type V = SongView;

    open spec fn view(&self) -> SongView {
        SongView {
            name: self.name@,
            definition: self.definition@,
            song_file: self.song_file@,
        }
    }
}

impl Clone for Song {
    fn clone(&self) -> (copy: Self)
        ensures
            copy == *self,
    {
        Song {
            name: self.name.clone(),
            definition: self.definition.clone(),
            song_file: self.song_file.clone(),
        }
    }
}

/// A list of songs, with texts as sequences.
pub open spec fn song_views(songs: Seq<Song>) -> Seq<SongView> {
    songs.map_values(|s: Song| s@)
}

/// Why a file gives no songs.
pub enum SongsError {
    /// A document is no song; what is wrong with it.
    Document(String),
    /// The file has no canonical path; what is wrong with it.
    File(String),
    /// A song cannot be made from its configuration; what is wrong with it.
    Conversion(String),
}

/// The same, with texts as sequences.
pub enum SongsErrorView {
    Document(Seq<char>),
    File(Seq<char>),
    Conversion(Seq<char>),
}

impl View for SongsError {
    type V = SongsErrorView;

    open spec fn view(&self) -> SongsErrorView {
        match self {
            SongsError::Document(message) => SongsErrorView::Document(message@),
            SongsError::File(message) => SongsErrorView::File(message@),
            SongsError::Conversion(message) => SongsErrorView::Conversion(message@),
        }
    }
}

/// The songs that were made, or why there are none, with texts as sequences.
pub open spec fn outcome(songs: Result<Vec<Song>, SongsError>) -> Result<
    Seq<SongView>,
    SongsErrorView,
> {
    match songs {
        Ok(s) => Ok(song_views(s@)),
        Err(e) => Err(e@),
    }
}

/// What is said of a document of a file that is no song.
pub open spec fn document_message(file: Seq<char>, error: Seq<char>) -> Seq<char> {
    "error parsing file "@ + file + ": "@ + error
}

/// The song that a document in a file configures.
pub open spec fn song_in(document: SongDocument, song_file: String) -> SongConfig {
    SongConfig { name: document.name, definition: document.definition, song_file }
}

/// The songs that the documents of a file configure, from what was made of each of
/// them. The first document decides first; the canonical path of the file is
/// looked up only for a document that is a song.
pub open spec fn configs_in_file(
    documents: Seq<Result<SongDocument, String>>,
    file: Seq<char>,
    canonical: Result<String, String>,
) -> Result<Seq<SongConfig>, SongsErrorView>
    decreases documents.len(),
{
    if documents.len() == 0 {
        Ok(seq![])
    } else {
        match configs_in_file(documents.drop_last(), file, canonical) {
            Err(error) => Err(error),
            Ok(songs) => match (documents.last(), canonical) {
                (Err(error), _) => Err(
                    SongsErrorView::Document(document_message(file, error@)),
                ),
                (Ok(_), Err(error)) => Err(SongsErrorView::File(error@)),
                (Ok(document), Ok(path)) => Ok(songs.push(song_in(document, path))),
            },
        }
    }
}

/// What comes of conversions: all songs in order, or the first fault.
pub open spec fn converted(conversions: Seq<Result<Song, String>>) -> Result<
    Seq<SongView>,
    SongsErrorView,
>
    decreases conversions.len(),
{
    if conversions.len() == 0 {
        Ok(seq![])
    } else {
        match converted(conversions.drop_last()) {
            Err(error) => Err(error),
            Ok(songs) => match conversions.last() {
                Err(error) => Err(SongsErrorView::Conversion(error@)),
                Ok(song) => Ok(songs.push(song@)),
            },
        }
    }
}

/// Whether these are the results of converting songs one after the other, up to
/// the first that fails.
pub open spec fn conversions_of<F: Fn(&SongConfig) -> Result<Song, String>>(
    convert: F,
    configs: Seq<SongConfig>,
    conversions: Seq<Result<Song, String>>,
) -> bool {
    &&& conversions.len() <= configs.len()
    &&& forall|i: int|
        0 <= i < conversions.len() ==> call_ensures(
            convert,
            (&configs[i],),
            #[trigger] conversions[i],
        )
    &&& forall|i: int| 0 <= i < conversions.len() - 1 ==> (#[trigger] conversions[i]) is Ok
    &&& conversions.len() < configs.len() ==> conversions.len() > 0 && conversions.last() is Err
}

/// Whether this comes of converting songs one after the other.
pub open spec fn converts_to<F: Fn(&SongConfig) -> Result<Song, String>>(
    convert: F,
    configs: Seq<SongConfig>,
    songs: Result<Seq<SongView>, SongsErrorView>,
) -> bool {
    exists|conversions: Seq<Result<Song, String>>|
        #![trigger conversions_of(convert, configs, conversions)]
        conversions_of(convert, configs, conversions) && songs == converted(conversions)
}

/// The songs that the documents of a file configure, from what was made of each of
/// them and of the file's path.
pub fn song_configs(
    documents: &Vec<Result<SongDocument, String>>,
    file: &str,
    canonical: &Result<String, String>,
) -> (configs: Result<Vec<SongConfig>, SongsError>)
    ensures
        match configs {
            Ok(c) => configs_in_file(documents@, file@, *canonical) == Ok::<_, SongsErrorView>(c@),
            Err(e) => configs_in_file(documents@, file@, *canonical) == Err::<Seq<SongConfig>, _>(
                e@,
            ),
        },
{
    let mut configs: Vec<SongConfig> = Vec::new();
    assert(documents@.take(0) =~= seq![]);
    for i in 0..documents.len()
        invariant
            configs_in_file(documents@.take(i as int), file@, *canonical) == Ok::<
                _,
                SongsErrorView,
            >(configs@),
    {
        proof {
            assert(documents@.take(i + 1).drop_last() == documents@.take(i as int));
            assert(documents@.take(i + 1).last() == documents@[i as int]);
        }
        match &documents[i] {
            Err(error) => {
                let mut message = "error parsing file ".to_owned();
                message.append(file);
                message.append(": ");
                message.append(error.as_str());
                proof {
                    lemma_first_fault(documents@, file@, *canonical, i + 1);
                }
                return Err(SongsError::Document(message));
            },
            Ok(document) => match canonical {
                Err(error) => {
                    proof {
                        lemma_first_fault(documents@, file@, *canonical, i + 1);
                    }
                    return Err(SongsError::File(error.clone()));
                },
                Ok(path) => {
                    configs.push(
                        SongConfig {
                            name: document.name.clone(),
                            definition: document.definition.clone(),
                            song_file: path.clone(),
                        },
                    );
                },
            },
        }
    }
    assert(documents@.take(documents@.len() as int) == documents@);
    Ok(configs)
}

/// What comes of conversions: all songs in order, or the first fault.
pub fn convert_songs(conversions: &Vec<Result<Song, String>>) -> (songs: Result<
    Vec<Song>,
    SongsError,
>)
    ensures
        outcome(songs) == converted(conversions@),
{
    let mut songs: Vec<Song> = Vec::new();
    assert(song_views(songs@) =~= seq![]);
    assert(conversions@.take(0) =~= seq![]);
    for i in 0..conversions.len()
        invariant
            converted(conversions@.take(i as int)) == Ok::<_, SongsErrorView>(song_views(songs@)),
    {
        proof {
            assert(conversions@.take(i + 1).drop_last() == conversions@.take(i as int));
            assert(conversions@.take(i + 1).last() == conversions@[i as int]);
        }
        match &conversions[i] {
            Err(error) => {
                proof {
                    lemma_first_failure(conversions@, i + 1);
                }
                return Err(SongsError::Conversion(error.clone()));
            },
            Ok(song) => {
                let ghost before = songs@;
                songs.push(song.clone());
                assert(song_views(songs@) =~= song_views(before).push(song@));
            },
        }
    }
    assert(conversions@.take(conversions@.len() as int) == conversions@);
    Ok(songs)
}

/// The songs in a file, from what was made of each of its documents and of the
/// file's path. Songs are converted once all documents are known to be songs, one
/// after the other, and the first that fails decides.
pub fn parse_songs<F: Fn(&SongConfig) -> Result<Song, String>>(
    documents: &Vec<Result<SongDocument, String>>,
    file: &str,
    canonical: &Result<String, String>,
    convert: F,
) -> (songs: Result<Vec<Song>, SongsError>)
    requires
        forall|config: &SongConfig| #[trigger] call_requires(convert, (config,)),
    ensures
        match configs_in_file(documents@, file@, *canonical) {
            Err(error) => outcome(songs) == Err::<Seq<SongView>, _>(error),
            Ok(configs) => converts_to(convert, configs, outcome(songs)),
        },
{
    let configs: Vec<SongConfig> = match song_configs(documents, file, canonical) {
        Ok(configs) => configs,
        Err(error) => {
            return Err(error);
        },
    };
    let mut conversions: Vec<Result<Song, String>> = Vec::new();
    let mut failed: bool = false;
    let mut i: usize = 0;
    while i < configs.len() && !failed
        invariant
            forall|config: &SongConfig| #[trigger] call_requires(convert, (config,)),
            i <= configs@.len(),
            conversions@.len() == i,
            forall|j: int|
                0 <= j < i ==> call_ensures(convert, (&configs@[j],), #[trigger] conversions@[j]),
            forall|j: int| 0 <= j < i - 1 ==> (#[trigger] conversions@[j]) is Ok,
            failed ==> i > 0 && conversions@.last() is Err,
            !failed ==> forall|j: int| 0 <= j < i ==> (#[trigger] conversions@[j]) is Ok,
        decreases configs@.len() - i,
    {
        let conversion: Result<Song, String> = convert(&configs[i]);
        failed = conversion.is_err();
        conversions.push(conversion);
        i += 1;
    }
    assert(conversions_of(convert, configs@, conversions@));
    let songs = convert_songs(&conversions);
    assert(converts_to(convert, configs@, outcome(songs)));
    songs
}

/// Where every document of a file is a song, the file configures all of them in
/// order.
pub proof fn law_every_document_counts(
    documents: Seq<Result<SongDocument, String>>,
    file: Seq<char>,
    path: String,
)
    requires
        forall|i: int| 0 <= i < documents.len() ==> (#[trigger] documents[i]) is Ok,
    ensures
        configs_in_file(documents, file, Ok(path)) == Ok::<_, SongsErrorView>(
            Seq::new(documents.len(), |i: int| song_in(documents[i]->Ok_0, path)),
        ),
    decreases documents.len(),
{
    let all = Seq::new(documents.len(), |i: int| song_in(documents[i]->Ok_0, path));
    if documents.len() == 0 {
        assert(all =~= seq![]);
    } else {
        let front = documents.drop_last();
        assert forall|i: int| 0 <= i < front.len() implies (#[trigger] front[i]) is Ok by {
            assert(front[i] == documents[i]);
        }
        law_every_document_counts(front, file, path);
        assert(documents[documents.len() - 1] is Ok);
        assert(all =~= Seq::new(front.len(), |i: int| song_in(front[i]->Ok_0, path)).push(
            song_in(documents.last()->Ok_0, path),
        ));
    }
}

/// The first document of a file that is no song decides, with its fault as the
/// message, whatever would come of converting the songs before it.
pub proof fn law_first_faulty_document(
    documents: Seq<Result<SongDocument, String>>,
    file: Seq<char>,
    path: String,
    at: int,
)
    requires
        0 <= at < documents.len(),
        documents[at] is Err,
        forall|i: int| 0 <= i < at ==> (#[trigger] documents[i]) is Ok,
    ensures
        configs_in_file(documents, file, Ok(path)) == Err::<Seq<SongConfig>, _>(
            SongsErrorView::Document(document_message(file, documents[at]->Err_0@)),
        ),
{
    let front = documents.take(at);
    assert forall|i: int| 0 <= i < front.len() implies (#[trigger] front[i]) is Ok by {
        assert(front[i] == documents[i]);
    }
    law_every_document_counts(front, file, path);
    let through = documents.take(at + 1);
    assert(through.drop_last() =~= front);
    assert(through.last() == documents[at]);
    lemma_first_fault(documents, file, Ok(path), at + 1);
}

/// Conversions give songs exactly if none of them fails, and otherwise the fault
/// of the first that does.
pub proof fn law_first_failed_conversion(conversions: Seq<Result<Song, String>>)
    ensures
        match converted(conversions) {
            Ok(songs) => songs.len() == conversions.len() && forall|i: int|
                0 <= i < conversions.len() ==> (#[trigger] conversions[i]) is Ok && songs[i]
                    == conversions[i]->Ok_0@,
            Err(error) => exists|at: int|
                0 <= at < conversions.len() && (#[trigger] conversions[at]) is Err && error
                    == SongsErrorView::Conversion(conversions[at]->Err_0@) && (forall|i: int|
                    0 <= i < at ==> (#[trigger] conversions[i]) is Ok),
        },
    decreases conversions.len(),
{
    if conversions.len() > 0 {
        let front = conversions.drop_last();
        law_first_failed_conversion(front);
        match converted(front) {
            Ok(songs) => {
                assert forall|i: int| 0 <= i < front.len() implies (#[trigger] conversions[i]) is Ok
                    && songs[i] == conversions[i]->Ok_0@ by {
                    assert(front[i] == conversions[i]);
                }
                if conversions.last() is Err {
                    assert(conversions[conversions.len() - 1] is Err);
                }
            },
            Err(error) => {
                let at = choose|at: int|
                    0 <= at < front.len() && (#[trigger] front[at]) is Err && error
                        == SongsErrorView::Conversion(front[at]->Err_0@) && (forall|i: int|
                        0 <= i < at ==> (#[trigger] front[i]) is Ok);
                assert(conversions[at] is Err);
                assert forall|i: int| 0 <= i < at implies (#[trigger] conversions[i]) is Ok by {
                    assert(front[i] == conversions[i]);
                }
            },
        }
    }
}

/// What is wrong with the first conversions is wrong with all of them.
proof fn lemma_first_failure(conversions: Seq<Result<Song, String>>, count: int)
    requires
        0 <= count <= conversions.len(),
        converted(conversions.take(count)) is Err,
    ensures
        converted(conversions) == converted(conversions.take(count)),
    decreases conversions.len(),
{
    if count == conversions.len() {
        assert(conversions.take(count) == conversions);
    } else {
        assert(conversions.drop_last().take(count) == conversions.take(count));
        lemma_first_failure(conversions.drop_last(), count);
    }
}

/// What is wrong with the first documents of a file is wrong with the file.
proof fn lemma_first_fault(
    documents: Seq<Result<SongDocument, String>>,
    file: Seq<char>,
    canonical: Result<String, String>,
    count: int,
)
    requires
        0 <= count <= documents.len(),
        configs_in_file(documents.take(count), file, canonical) is Err,
    ensures
        configs_in_file(documents, file, canonical) == configs_in_file(
            documents.take(count),
            file,
            canonical,
        ),
    decreases documents.len(),
{
    if count == documents.len() {
        assert(documents.take(count) == documents);
    } else {
        assert(documents.drop_last().take(count) == documents.take(count));
        lemma_first_fault(documents.drop_last(), file, canonical, count);
    }
}

/// The songs by their titles.
pub struct Songs {
    songs: Vec<Song>,
}

impl View for Songs {
    type V = Map<Seq<char>, SongView>;

    closed spec fn view(&self) -> Map<Seq<char>, SongView> {
        added(Map::empty(), song_views(self.songs@))
    }
}

/// The songs once others are added in order; of two with the same title the
/// later one counts.
pub open spec fn added(
    songs: Map<Seq<char>, SongView>,
    others: Seq<SongView>,
) -> Map<Seq<char>, SongView>
    decreases others.len(),
{
    if others.len() == 0 {
        songs
    } else {
        added(songs, others.drop_last()).insert(others.last().name, others.last())
    }
}

/// An entry of a directory.
pub struct DirEntry {
    /// The entries of the entry, if it is a directory.
    pub entries: Option<Vec<DirEntry>>,
    /// The extension of its name, if it has one.
    pub extension: Option<String>,
    /// The songs in it, if it is a file that holds songs.
    pub songs: Option<Vec<Song>>,
}

/// Whether a file of this extension holds songs.
pub open spec fn song_extension(extension: Option<Seq<char>>) -> bool {
    extension == Some("yaml"@) || extension == Some("yml"@)
}

/// The songs of an entry that is a file.
pub open spec fn songs_of_file(entry: DirEntry) -> Seq<SongView> {
    match entry.songs {
        Some(songs) if song_extension(crate::text::optional_text(entry.extension)) => song_views(
            songs@,
        ),
        _ => seq![],
    }
}

/// All songs under a directory, from its entries in the order in which they are
/// listed. Of two with the same title the later one counts.
pub open spec fn songs_under(entries: Seq<DirEntry>) -> Map<Seq<char>, SongView>
    decreases entries,
{
    if entries.len() == 0 {
        Map::empty()
    } else {
        let earlier = songs_under(entries.drop_last());
        let entry = entries.last();
        let below = match entry.entries {
            Some(inner) => songs_under(inner@),
            None => Map::empty(),
        };
        added(earlier.union_prefer_right(below), songs_of_file(entry))
    }
}

/// The last song of that title in a list.
pub open spec fn last_of(songs: Seq<SongView>, name: Seq<char>) -> Option<SongView>
    decreases songs.len(),
{
    if songs.len() == 0 {
        None
    } else if songs.last().name == name {
        Some(songs.last())
    } else {
        last_of(songs.drop_last(), name)
    }
}

/// Of the songs of a title, the one added last counts.
proof fn lemma_added(songs: Map<Seq<char>, SongView>, others: Seq<SongView>, name: Seq<char>)
    ensures
        match last_of(others, name) {
            Some(song) => added(songs, others).dom().contains(name) && added(songs, others)[name]
                == song,
            None => added(songs, others).dom().contains(name) == songs.dom().contains(name)
                && added(songs, others)[name] == songs[name],
        },
    decreases others.len(),
{
    if others.len() > 0 && others.last().name != name {
        lemma_added(songs, others.drop_last(), name);
    }
}

/// What the last song of a title is.
proof fn lemma_last_of(songs: Seq<SongView>, name: Seq<char>)
    ensures
        match last_of(songs, name) {
            Some(song) => exists|i: int|
                0 <= i < songs.len() && (#[trigger] songs[i]).name == name && songs[i] == song && (
                forall|j: int| i < j < songs.len() ==> (#[trigger] songs[j]).name != name),
            None => forall|i: int| 0 <= i < songs.len() ==> (#[trigger] songs[i]).name != name,
        },
    decreases songs.len(),
{
    if songs.len() > 0 {
        let front = songs.drop_last();
        if songs.last().name == name {
            assert(songs[songs.len() - 1].name == name);
        } else {
            lemma_last_of(front, name);
            match last_of(front, name) {
                Some(song) => {
                    let i = choose|i: int|
                        0 <= i < front.len() && (#[trigger] front[i]).name == name && front[i]
                            == song && (forall|j: int|
                            i < j < front.len() ==> (#[trigger] front[j]).name != name);
                    assert forall|j: int| i < j < songs.len() implies (#[trigger] songs[j]).name
                        != name by {
                        if j < front.len() {
                            assert(front[j] == songs[j]);
                        }
                    }
                    assert(songs[i] == song);
                },
                None => {
                    assert forall|i: int| 0 <= i < songs.len() implies (#[trigger] songs[i]).name
                        != name by {
                        if i < front.len() {
                            assert(front[i] == songs[i]);
                        }
                    }
                },
            }
        }
    }
}

/// In a list of distinct titles a song is the last one of its title.
proof fn lemma_only_one(songs: Seq<SongView>, at: int)
    requires
        distinct_titles(songs),
        0 <= at < songs.len(),
    ensures
        last_of(songs, songs[at].name) == Some(songs[at]),
{
    lemma_last_of(songs, songs[at].name);
}

/// Adding songs one by one is adding the songs by their titles.
proof fn lemma_added_to_nothing(songs: Map<Seq<char>, SongView>, others: Seq<SongView>)
    ensures
        added(songs, others) == songs.union_prefer_right(added(Map::empty(), others)),
    decreases others.len(),
{
    if others.len() > 0 {
        lemma_added_to_nothing(songs, others.drop_last());
    }
    assert(added(songs, others) =~= songs.union_prefer_right(added(Map::empty(), others)));
}

/// Whether no two songs of a list have the same title.
pub open spec fn distinct_titles(songs: Seq<SongView>) -> bool {
    forall|i: int, j: int|
        0 <= i < j < songs.len() ==> (#[trigger] songs[i]).name != (#[trigger] songs[j]).name
}

impl Songs {
    /// No title is held twice.
    #[verifier::type_invariant]
    spec fn holds_titles_once(self) -> bool {
        distinct_titles(song_views(self.songs@))
    }

    /// No songs.
    pub fn new() -> (songs: Songs)
        ensures
            songs@ == Map::<Seq<char>, SongView>::empty(),
    {
        Songs { songs: Vec::new() }
    }

    /// The position of the song of that title.
    fn position(&self, name: &str) -> (found: Option<usize>)
        ensures
            match found {
                Some(i) => i < self.songs@.len() && self.songs@[i as int].name@ == name@,
                None => forall|i: int|
                    0 <= i < self.songs@.len() ==> (#[trigger] self.songs@[i]).name@ != name@,
            },
    {
        for i in 0..self.songs.len()
            invariant
                forall|j: int| 0 <= j < i ==> (#[trigger] self.songs@[j]).name@ != name@,
        {
            if same_text(self.songs[i].name.as_str(), name) {
                return Some(i);
            }
        }
        None
    }

    /// The song of that title.
    pub fn get(&self, name: &str) -> (song: Option<&Song>)
        ensures
            match song {
                Some(s) => self@.dom().contains(name@) && s@ == self@[name@],
                None => !self@.dom().contains(name@),
            },
    {
        proof {
            use_type_invariant(self);
            lemma_added(Map::empty(), song_views(self.songs@), name@);
            lemma_last_of(song_views(self.songs@), name@);
        }
        match self.position(name) {
            Some(i) => {
                proof {
                    assert(song_views(self.songs@)[i as int].name == name@);
                    lemma_only_one(song_views(self.songs@), i as int);
                }
                Some(&self.songs[i])
            },
            None => {
                assert forall|i: int| 0 <= i < self.songs@.len() implies (#[trigger] song_views(
                    self.songs@,
                )[i]).name != name@ by {
                    assert(self.songs@[i].name@ != name@);
                }
                None
            },
        }
    }

    /// Adds a song; it takes the place of one of the same title.
    pub fn insert(&mut self, song: Song)
        ensures
            final(self)@ == old(self)@.insert(song.name@, song@),
    {
        proof {
            use_type_invariant(&*self);
        }
        let found = self.position(song.name.as_str());
        let mut songs: Vec<Song> = Vec::new();
        std::mem::swap(&mut songs, &mut self.songs);
        let ghost before = song_views(songs@);
        match found {
            Some(i) => {
                songs.set(i, song);
                proof {
                    assert(song_views(songs@) =~= before.update(i as int, song@));
                    assert(before[i as int].name == song.name@);
                    lemma_replaced(before, i as int, song@);
                }
            },
            None => {
                proof {
                    assert forall|i: int| 0 <= i < before.len() implies (#[trigger] before[i]).name
                        != song.name@ by {
                        assert(songs@[i].name@ != song.name@);
                    }
                }
                songs.push(song);
                assert(song_views(songs@) =~= before.push(song@));
                assert(before.push(song@).drop_last() =~= before);
            },
        }
        self.songs = songs;
    }

    /// Adds songs in order.
    pub fn insert_all(&mut self, songs: &Vec<Song>)
        ensures
            final(self)@ == added(old(self)@, song_views(songs@)),
    {
        let ghost views = song_views(songs@);
        assert(views.take(0) =~= seq![]);
        for i in 0..songs.len()
            invariant
                views == song_views(songs@),
                self@ == added(old(self)@, views.take(i as int)),
        {
            assert(views.take(i + 1).drop_last() =~= views.take(i as int));
            assert(views.take(i + 1).last() == songs@[i as int]@);
            self.insert(songs[i].clone());
        }
        assert(views.take(views.len() as int) =~= views);
    }

    /// The songs, in no particular order.
    pub fn list(&self) -> (songs: &Vec<Song>)
        ensures
            distinct_titles(song_views(songs@)),
            added(Map::empty(), song_views(songs@)) == self@,
    {
        proof {
            use_type_invariant(self);
        }
        &self.songs
    }
}

/// Putting a song in the place of one of the same title.
proof fn lemma_replaced(songs: Seq<SongView>, at: int, song: SongView)
    requires
        distinct_titles(songs),
        0 <= at < songs.len(),
        songs[at].name == song.name,
    ensures
        distinct_titles(songs.update(at, song)),
        added(Map::empty(), songs.update(at, song)) == added(Map::empty(), songs).insert(
            song.name,
            song,
        ),
{
    let after = songs.update(at, song);
    let left = added(Map::empty(), after);
    let right = added(Map::empty(), songs).insert(song.name, song);
    assert forall|i: int, j: int| 0 <= i < j < after.len() implies (#[trigger] after[i]).name != (
    #[trigger] after[j]).name by {
        assert(songs[i].name != songs[j].name);
    }
    assert forall|name: Seq<char>|
        #![trigger left.dom().contains(name)]
        left.dom().contains(name) == right.dom().contains(name) && left[name] == right[name] by {
        lemma_added(Map::empty(), songs, name);
        lemma_added(Map::empty(), after, name);
        lemma_last_of(songs, name);
        lemma_last_of(after, name);
        if name == song.name {
            lemma_only_one(after, at);
        } else if last_of(songs, name) is Some {
            let i = choose|i: int|
                0 <= i < songs.len() && (#[trigger] songs[i]).name == name && songs[i] == last_of(
                    songs,
                    name,
                )->0;
            assert(after[i] == songs[i]);
            lemma_only_one(after, i);
        } else if last_of(after, name) is Some {
            let i = choose|i: int| 0 <= i < after.len() && (#[trigger] after[i]).name == name;
            assert(songs[i].name == name);
        }
    }
    assert(left =~= right);
}

/// Of the songs of a title, the one added last counts, and a song that was there
/// before counts only where none of its title is added.
pub proof fn law_last_song_counts(
    songs: Map<Seq<char>, SongView>,
    others: Seq<SongView>,
    name: Seq<char>,
)
    ensures
        match last_of(others, name) {
            Some(song) => added(songs, others).dom().contains(name) && added(songs, others)[name]
                == song,
            None => (added(songs, others).dom().contains(name) <==> songs.dom().contains(name))
                && (songs.dom().contains(name) ==> added(songs, others)[name] == songs[name]),
        },
{
    lemma_added(songs, others, name);
}

/// Every song is held under its own title.
pub proof fn law_songs_have_their_titles(entries: Seq<DirEntry>, name: Seq<char>)
    requires
        songs_under(entries).dom().contains(name),
    ensures
        songs_under(entries)[name].name == name,
    decreases entries,
{
    if entries.len() > 0 {
        let earlier = songs_under(entries.drop_last());
        let entry = entries.last();
        let below = match entry.entries {
            Some(inner) => songs_under(inner@),
            None => Map::empty(),
        };
        lemma_added(earlier.union_prefer_right(below), songs_of_file(entry), name);
        lemma_last_of(songs_of_file(entry), name);
        if last_of(songs_of_file(entry), name) is None {
            if below.dom().contains(name) {
                match entry.entries {
                    Some(inner) => {
                        law_songs_have_their_titles(inner@, name);
                    },
                    None => {},
                }
            } else {
                law_songs_have_their_titles(entries.drop_last(), name);
            }
        }
    }
}

/// Whether a song of that title is in an entry: in the file, or under the
/// directory, that it is.
pub open spec fn title_in(entry: DirEntry, name: Seq<char>) -> bool {
    ||| exists|i: int|
        0 <= i < songs_of_file(entry).len() && (#[trigger] songs_of_file(entry)[i]).name == name
    ||| entry.entries matches Some(inner) && songs_under(inner@).dom().contains(name)
}

/// No title is lost and none is made up: the titles found under a directory are
/// those in its entries.
pub proof fn law_titles_under_a_directory(entries: Seq<DirEntry>, name: Seq<char>)
    ensures
        songs_under(entries).dom().contains(name) <==> exists|at: int|
            0 <= at < entries.len() && title_in(#[trigger] entries[at], name),
    decreases entries.len(),
{
    if entries.len() > 0 {
        let front = entries.drop_last();
        let entry = entries.last();
        let below = match entry.entries {
            Some(inner) => songs_under(inner@),
            None => Map::empty(),
        };
        law_titles_under_a_directory(front, name);
        lemma_added(
            songs_under(front).union_prefer_right(below),
            songs_of_file(entry),
            name,
        );
        lemma_last_of(songs_of_file(entry), name);
        if songs_under(front).dom().contains(name) {
            let at = choose|at: int| 0 <= at < front.len() && title_in(#[trigger] front[at], name);
            assert(title_in(entries[at], name));
        }
        if title_in(entry, name) {
            assert(title_in(entries[entries.len() - 1], name));
        }
        if exists|at: int| 0 <= at < entries.len() && title_in(#[trigger] entries[at], name) {
            let at = choose|at: int|
                0 <= at < entries.len() && title_in(#[trigger] entries[at], name);
            if at < front.len() {
                assert(title_in(front[at], name));
            }
        }
    }
}

/// Whether a file of this extension holds songs.
pub fn is_song_extension(extension: &Option<String>) -> (result: bool)
    ensures
        result == song_extension(crate::text::optional_text(*extension)),
{
    match extension {
        Some(extension) => same_text(extension.as_str(), "yaml") || same_text(
            extension.as_str(),
            "yml",
        ),
        None => false,
    }
}

/// All songs under a directory, from its entries in the order in which they are
/// listed.
pub fn get_all_songs(entries: &Vec<DirEntry>) -> (songs: Songs)
    ensures
        songs@ == songs_under(entries@),
    decreases entries@,
{
    let mut songs = Songs::new();
    assert(entries@.take(0) =~= seq![]);
    for i in 0..entries.len()
        invariant
            songs@ == songs_under(entries@.take(i as int)),
    {
        let entry = &entries[i];
        let ghost earlier = songs@;
        proof {
            assert(entries@.take(i + 1).drop_last() == entries@.take(i as int));
            assert(entries@.take(i + 1).last() == entry);
        }
        let ghost below_view = match &entry.entries {
            Some(inner) => songs_under(inner@),
            None => Map::empty(),
        };
        match &entry.entries {
            Some(inner) => {
                assert(decreases_to!(entries@ => inner@));
                let below = get_all_songs(inner);
                let list = below.list();
                songs.insert_all(list);
                proof {
                    lemma_added_to_nothing(earlier, song_views(list@));
                }
            },
            None => {
                assert(earlier.union_prefer_right(Map::empty()) =~= earlier);
            },
        }
        assert(songs@ == earlier.union_prefer_right(below_view));
        let holds_songs: bool = is_song_extension(&entry.extension);
        match &entry.songs {
            Some(parsed) => {
                if holds_songs {
                    songs.insert_all(parsed);
                }
            },
            None => {},
        }
        assert(songs@ == added(earlier.union_prefer_right(below_view), songs_of_file(*entry)));
        assert(songs@ == songs_under(entries@.take(i + 1)));
    }
    assert(entries@.take(entries@.len() as int) == entries@);
    songs
}

} // verus!
