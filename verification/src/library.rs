//! The tag-indexed library: metadata tags, property tables, the song table,
//! and the composed library index that resolves song ids to tags and back.

use std::collections::VecDeque;
use vstd::prelude::*;

verus! {

/// One labeled metadata value: which of the four metadata axes it belongs to,
/// plus its text.
#[derive(Debug)]
pub enum Tag {
    ReleaseArtist(String),
    ReleaseTitle(String),
    TrackTitle(String),
    FilePath(String),
}

/// Mathematical model of a `Tag`: the same four variants over character
/// sequences.
pub ghost enum TagModel {
    ReleaseArtist(Seq<char>),
    ReleaseTitle(Seq<char>),
    TrackTitle(Seq<char>),
    FilePath(Seq<char>),
}

impl View for Tag {
    type V = TagModel;

    open spec fn view(&self) -> TagModel {
        match self {
            Tag::ReleaseArtist(s) => TagModel::ReleaseArtist(s@),
            Tag::ReleaseTitle(s) => TagModel::ReleaseTitle(s@),
            Tag::TrackTitle(s) => TagModel::TrackTitle(s@),
            Tag::FilePath(s) => TagModel::FilePath(s@),
        }
    }
}

/// The fixed property index a tag variant belongs to: 0 artist, 1 release
/// title, 2 track title, 3 file path.
pub open spec fn property_index_of(t: TagModel) -> int {
    match t {
        TagModel::ReleaseArtist(_) => 0,
        TagModel::ReleaseTitle(_) => 1,
        TagModel::TrackTitle(_) => 2,
        TagModel::FilePath(_) => 3,
    }
}

/// The text carried by a tag, independent of its variant.
pub open spec fn text_of(t: TagModel) -> Seq<char> {
    match t {
        TagModel::ReleaseArtist(s) => s,
        TagModel::ReleaseTitle(s) => s,
        TagModel::TrackTitle(s) => s,
        TagModel::FilePath(s) => s,
    }
}

impl Tag {
    /// Unwraps the text of the tag, discarding the variant.
    pub fn to_string(self) -> (r: String)
        ensures
            r@ == text_of(self@),
    {
        match self {
            Tag::ReleaseArtist(s) => s,
            Tag::ReleaseTitle(s) => s,
            Tag::TrackTitle(s) => s,
            Tag::FilePath(s) => s,
        }
    }

    /// The property index implied by the tag's variant.
    pub fn property_index(&self) -> (r: u32)
        ensures
            r == property_index_of(self@),
    {
        match self {
            Tag::ReleaseArtist(_) => 0,
            Tag::ReleaseTitle(_) => 1,
            Tag::TrackTitle(_) => 2,
            Tag::FilePath(_) => 3,
        }
    }

    /// A copy of this tag, equal to it in variant and text.
    pub fn duplicate(&self) -> (r: Tag)
        ensures
            r@ == self@,
    {
        match self {
            Tag::ReleaseArtist(s) => Tag::ReleaseArtist(s.clone()),
            Tag::ReleaseTitle(s) => Tag::ReleaseTitle(s.clone()),
            Tag::TrackTitle(s) => Tag::TrackTitle(s.clone()),
            Tag::FilePath(s) => Tag::FilePath(s.clone()),
        }
    }
}

impl PartialEq for Tag {
    /// Structural equality: variant and text must both match.
    fn eq(&self, other: &Tag) -> (r: bool) {
        match (self, other) {
            (Tag::ReleaseArtist(a), Tag::ReleaseArtist(b)) => *a == *b,
            (Tag::ReleaseTitle(a), Tag::ReleaseTitle(b)) => *a == *b,
            (Tag::TrackTitle(a), Tag::TrackTitle(b)) => *a == *b,
            (Tag::FilePath(a), Tag::FilePath(b)) => *a == *b,
            _ => false,
        }
    }
}

impl vstd::std_specs::cmp::PartialEqSpecImpl for Tag {
    open spec fn obeys_eq_spec() -> bool {
        true
    }

    open spec fn eq_spec(&self, other: &Tag) -> bool {
        self@ == other@
    }
}

/// How a library operation can fail.
///
/// `MalformedLibrary` is a construction-time error; `OutOfRange` reports an
/// index lookup beyond a table's bounds; `WrongTagVariant` reports a
/// cross-table inconsistency (a resolved tag whose variant does not belong to
/// the property it was found under).
#[derive(Clone, Copy, Debug, PartialEq, Eq, Structural)]
pub enum LibraryError {
    MalformedLibrary,
    OutOfRange,
    WrongTagVariant,
}

/// One cell of a property table: a tag value together with the complete list
/// of song ids carrying that tag.
#[derive(Debug)]
pub struct PropertyEntry {
    pub tag: Tag,
    pub song_ids: VecDeque<u32>,
}

/// Mathematical model of a `PropertyEntry`.
pub ghost struct PropertyEntryModel {
    pub tag: TagModel,
    pub song_ids: Seq<u32>,
}

impl View for PropertyEntry {
    type V = PropertyEntryModel;

    open spec fn view(&self) -> PropertyEntryModel {
        PropertyEntryModel { tag: self.tag@, song_ids: self.song_ids@ }
    }
}

impl DeepView for PropertyEntry {
    type V = PropertyEntryModel;

    open spec fn deep_view(&self) -> PropertyEntryModel {
        self.view()
    }
}

/// The song-id list registered for the first entry of `table` whose tag
/// equals `t`, or the empty sequence when no entry matches.
pub open spec fn song_ids_for_tag_in(table: Seq<PropertyEntryModel>, t: TagModel) -> Seq<u32>
    decreases table.len(),
{
    if table.len() == 0 {
        Seq::empty()
    } else if table[0].tag == t {
        table[0].song_ids
    } else {
        song_ids_for_tag_in(table.drop_first(), t)
    }
}

/// The tag variant that property table `p` holds, applied to `text`.
pub open spec fn tag_of_property(p: int, text: Seq<char>) -> TagModel {
    if p == 0 {
        TagModel::ReleaseArtist(text)
    } else if p == 1 {
        TagModel::ReleaseTitle(text)
    } else if p == 2 {
        TagModel::TrackTitle(text)
    } else {
        TagModel::FilePath(text)
    }
}

/// Exactly four property tables, one per metadata axis, each an ordered
/// sequence of (tag, song-id-list) entries addressed by a dense tag id.
#[derive(Debug)]
pub struct MetadataCollection {
    metadata_collection: VecDeque<VecDeque<PropertyEntry>>,
}

impl View for MetadataCollection {
    type V = Seq<Seq<PropertyEntryModel>>;

    closed spec fn view(&self) -> Seq<Seq<PropertyEntryModel>> {
        self.metadata_collection.deep_view()
    }
}

/// Well-formed collection model: exactly four property tables, and every tag
/// sits in the table of its own variant.
pub open spec fn collection_wf(c: Seq<Seq<PropertyEntryModel>>) -> bool {
    &&& c.len() == 4
    &&& forall|p: int, j: int|
        0 <= p < 4 && 0 <= j < c[p].len() ==> property_index_of(#[trigger] c[p][j].tag) == p
}

impl MetadataCollection {
    /// Well-formed: exactly four property tables, and every tag sits in the
    /// table of its own variant.
    pub open spec fn wf(self) -> bool {
        collection_wf(self@)
    }

    /// Builds the collection from the decoded source form: per property, in
    /// the fixed artist / release title / track title / file path order, an
    /// ordered list of (text, song-id-list) pairs.
    ///
    /// Fails with `MalformedLibrary` unless exactly four properties are
    /// given.
    pub fn new(input: VecDeque<VecDeque<(String, VecDeque<u32>)>>) -> (r: Result<
        MetadataCollection,
        LibraryError,
    >)
        ensures
            r is Ok <==> input@.len() == 4,
            r matches Err(e) ==> e == LibraryError::MalformedLibrary,
            r matches Ok(mc) ==> {
                &&& mc.wf()
                &&& mc@.len() == input@.len()
                &&& forall|p: int|
                    0 <= p < 4 ==> (#[trigger] mc@[p]).len() == input@[p]@.len()
                &&& forall|p: int, j: int|
                    0 <= p < 4 && 0 <= j < input@[p]@.len() ==> (#[trigger] mc@[p][j]).tag
                        == tag_of_property(p, input@[p]@[j].0@) && mc@[p][j].song_ids
                        == input@[p]@[j].1@
            },
    {
        if input.len() != 4 {
            return Err(LibraryError::MalformedLibrary);
        }
        let ghost input0 = input@;
        let mut input = input;
        let mut tables: VecDeque<VecDeque<PropertyEntry>> = VecDeque::new();
        let mut property_index: u32 = 0;
        while property_index < 4
            invariant
                input0.len() == 4,
                property_index <= 4,
                tables@.len() == property_index,
                input@ == input0.subrange(property_index as int, 4),
                forall|p: int|
                    0 <= p < property_index ==> (#[trigger] tables@[p])@.len()
                        == input0[p]@.len(),
                forall|p: int, j: int|
                    #![trigger tables@[p]@[j]]
                    0 <= p < property_index && 0 <= j < input0[p]@.len() ==> tables@[p]@[j]@.tag
                        == tag_of_property(p, input0[p]@[j].0@) && tables@[p]@[j]@.song_ids
                        == input0[p]@[j].1@,
            decreases 4 - property_index,
        {
            assert(input@.len() > 0);
            let prop = match input.pop_front() {
                Some(prop) => prop,
                None => {
                    return Err(LibraryError::MalformedLibrary);
                },
            };
            proof {
                assert(prop == input0[property_index as int]);
                assert(input@ =~= input0.subrange(property_index + 1, 4));
            }
            let ghost prop0 = prop@;
            let mut prop = prop;
            let mut table: VecDeque<PropertyEntry> = VecDeque::new();
            while prop.len() > 0
                invariant
                    table@.len() + prop@.len() == prop0.len(),
                    prop@ == prop0.subrange(table@.len() as int, prop0.len() as int),
                    forall|j: int|
                        0 <= j < table@.len() ==> (#[trigger] table@[j])@.tag == tag_of_property(
                            property_index as int,
                            prop0[j].0@,
                        ) && table@[j]@.song_ids == prop0[j].1@,
                decreases prop@.len(),
            {
                let ghost done = table@.len() as int;
                let pair = match prop.pop_front() {
                    Some(pair) => pair,
                    None => {
                        return Err(LibraryError::MalformedLibrary);
                    },
                };
                proof {
                    assert(pair == prop0[done]);
                    assert(prop@ =~= prop0.subrange(done + 1, prop0.len() as int));
                }
                let (text, song_ids) = pair;
                let tag = if property_index == 0 {
                    Tag::ReleaseArtist(text)
                } else if property_index == 1 {
                    Tag::ReleaseTitle(text)
                } else if property_index == 2 {
                    Tag::TrackTitle(text)
                } else {
                    Tag::FilePath(text)
                };
                table.push_back(PropertyEntry { tag, song_ids });
            }
            tables.push_back(table);
            property_index = property_index + 1;
        }
        let collection = MetadataCollection { metadata_collection: tables };
        proof {
            let dv = collection@;
            assert forall|p: int| 0 <= p < 4 implies (#[trigger] dv[p]).len()
                == input0[p]@.len() by {
                assert(dv[p] == tables@[p].deep_view());
            }
            assert forall|p: int, j: int|
                0 <= p < 4 && 0 <= j < input0[p]@.len() implies (#[trigger] dv[p][j]).tag
                == tag_of_property(p, input0[p]@[j].0@) && dv[p][j].song_ids
                == input0[p]@[j].1@ by {
                assert(dv[p] == tables@[p].deep_view());
                assert(dv[p][j] == tables@[p]@[j]@);
            }
            assert(collection.wf());
        }
        Ok(collection)
    }

    /// Looks up the tag stored at `(property_id, tag_id)`.
    ///
    /// Fails with `OutOfRange` if and only if either index exceeds the
    /// table's bounds.
    pub fn tag_from_property_and_tag_id(&self, property_id: u32, tag_id: u32) -> (r: Result<
        Tag,
        LibraryError,
    >)
        ensures
            r is Ok <==> property_id < self@.len() && tag_id < self@[property_id as int].len(),
            r matches Ok(tag) ==> tag@ == self@[property_id as int][tag_id as int].tag,
            r matches Err(e) ==> e == LibraryError::OutOfRange,
    {
        if (property_id as usize) < self.metadata_collection.len() {
            let table = &self.metadata_collection[property_id as usize];
            proof {
                assert(self@[property_id as int] == table.deep_view());
            }
            if (tag_id as usize) < table.len() {
                let entry = &table[tag_id as usize];
                proof {
                    assert(table.deep_view()[tag_id as int] == table@[tag_id as int]@);
                }
                Ok(entry.tag.duplicate())
            } else {
                Err(LibraryError::OutOfRange)
            }
        } else {
            Err(LibraryError::OutOfRange)
        }
    }

    /// Scans one property table for the first entry whose tag structurally
    /// equals `req_tag` and returns a copy of its song-id list; returns an
    /// empty list when no entry matches ("not found" is a legitimate result,
    /// not an error).
    pub fn song_ids_from_tag_and_property_vecdeque(
        req_tag: Tag,
        property_vecdeque: &VecDeque<PropertyEntry>,
    ) -> (r: VecDeque<u32>)
        ensures
            r@ == song_ids_for_tag_in(property_vecdeque.deep_view(), req_tag@),
    {
        let ghost dv = property_vecdeque.deep_view();
        let mut k: usize = 0;
        while k < property_vecdeque.len()
            invariant
                dv == property_vecdeque.deep_view(),
                k <= dv.len(),
                dv.len() == property_vecdeque@.len(),
                forall|j: int| 0 <= j < k ==> (#[trigger] dv[j]).tag != req_tag@,
            decreases dv.len() - k,
        {
            let entry = &property_vecdeque[k];
            proof {
                assert(dv[k as int] == property_vecdeque@[k as int]@);
            }
            if entry.tag == req_tag {
                proof {
                    lemma_scan_reaches(dv, req_tag@, k as int);
                }
                let ids = entry.song_ids.clone();
                proof {
                    assert(ids@ =~= entry.song_ids@);
                }
                return ids;
            }
            k = k + 1;
        }
        proof {
            lemma_scan_reaches(dv, req_tag@, dv.len() as int);
        }
        VecDeque::new()
    }

    /// Determines the property table implied by the tag's variant, then
    /// scans it for the tag's song-id list.
    pub fn song_ids_from_tag(&self, tag: Tag) -> (r: VecDeque<u32>)
        ensures
            property_index_of(tag@) < self@.len() ==> r@ == song_ids_for_tag_in(
                self@[property_index_of(tag@)],
                tag@,
            ),
            property_index_of(tag@) >= self@.len() ==> r@ == Seq::<u32>::empty(),
    {
        let p = tag.property_index();
        if (p as usize) < self.metadata_collection.len() {
            let table = &self.metadata_collection[p as usize];
            proof {
                assert(self@[p as int] == table.deep_view());
            }
            MetadataCollection::song_ids_from_tag_and_property_vecdeque(tag, table)
        } else {
            VecDeque::new()
        }
    }
}

/// One row of the song table: for each of the four properties, the tag id
/// naming the entry of the corresponding property table that describes this
/// song.
#[derive(Clone, Copy, Debug, PartialEq, Eq, Structural)]
pub struct SongRecord {
    pub artist_tag_id: u32,
    pub release_tag_id: u32,
    pub title_tag_id: u32,
    pub filepath_tag_id: u32,
}

impl SongRecord {
    /// The tag id this record stores for property `p`.
    pub open spec fn spec_tag_id(self, p: int) -> u32 {
        if p == 0 {
            self.artist_tag_id
        } else if p == 1 {
            self.release_tag_id
        } else if p == 2 {
            self.title_tag_id
        } else {
            self.filepath_tag_id
        }
    }

    /// Selects the tag id for a property index; fails with `OutOfRange` for
    /// a property index outside the fixed four.
    pub fn tag_id_for_property(&self, property_id: u32) -> (r: Result<u32, LibraryError>)
        ensures
            property_id < 4 ==> r == Ok::<u32, LibraryError>(self.spec_tag_id(property_id as int)),
            property_id >= 4 ==> r == Err::<u32, LibraryError>(LibraryError::OutOfRange),
    {
        match property_id {
            0 => Ok(self.artist_tag_id),
            1 => Ok(self.release_tag_id),
            2 => Ok(self.title_tag_id),
            3 => Ok(self.filepath_tag_id),
            _ => Err(LibraryError::OutOfRange),
        }
    }
}

/// The record built from one decoded four-integer row.
pub open spec fn record_of_row(row: (u32, u32, u32, u32)) -> SongRecord {
    SongRecord {
        artist_tag_id: row.0,
        release_tag_id: row.1,
        title_tag_id: row.2,
        filepath_tag_id: row.3,
    }
}

/// The ordered song table: a record's position in the sequence is its song
/// id, dense and 0-based.
#[derive(Debug)]
pub struct SongTable {
    song_table: VecDeque<SongRecord>,
}

impl View for SongTable {
    type V = Seq<SongRecord>;

    closed spec fn view(&self) -> Seq<SongRecord> {
        self.song_table@
    }
}

impl SongTable {
    /// Builds the table from the decoded source form: a dense ordered list
    /// of four-integer rows, one per song.
    pub fn new(rows: VecDeque<(u32, u32, u32, u32)>) -> (r: SongTable)
        ensures
            r@.len() == rows@.len(),
            forall|i: int| 0 <= i < rows@.len() ==> r@[i] == record_of_row(#[trigger] rows@[i]),
    {
        let ghost rows0 = rows@;
        let mut rows = rows;
        let mut song_table: VecDeque<SongRecord> = VecDeque::new();
        while rows.len() > 0
            invariant
                song_table@.len() + rows@.len() == rows0.len(),
                rows@ == rows0.subrange(song_table@.len() as int, rows0.len() as int),
                forall|i: int|
                    0 <= i < song_table@.len() ==> song_table@[i] == record_of_row(
                        #[trigger] rows0[i],
                    ),
            decreases rows@.len(),
        {
            let ghost done = song_table@.len() as int;
            match rows.pop_front() {
                Some(row) => {
                    proof {
                        assert(row == rows0[done]);
                        assert(rows@ =~= rows0.subrange(done + 1, rows0.len() as int));
                    }
                    song_table.push_back(
                        SongRecord {
                            artist_tag_id: row.0,
                            release_tag_id: row.1,
                            title_tag_id: row.2,
                            filepath_tag_id: row.3,
                        },
                    );
                },
                None => {},
            }
        }
        SongTable { song_table }
    }

    /// Direct indexed access to a song's record; fails with `OutOfRange` if
    /// and only if `id` is not a song id of this table.
    pub fn song_from_song_id(&self, id: u32) -> (r: Result<SongRecord, LibraryError>)
        ensures
            id < self@.len() ==> r == Ok::<SongRecord, LibraryError>(self@[id as int]),
            id >= self@.len() ==> r == Err::<SongRecord, LibraryError>(LibraryError::OutOfRange),
    {
        if (id as usize) < self.song_table.len() {
            Ok(self.song_table[id as usize])
        } else {
            Err(LibraryError::OutOfRange)
        }
    }

    /// The records for a whole list of song ids, in the list's order; fails
    /// with `OutOfRange` if and only if some id in the list is out of
    /// bounds.
    pub fn songs_from_song_ids(&self, ids: VecDeque<u32>) -> (r: Result<
        VecDeque<SongRecord>,
        LibraryError,
    >)
        ensures
            r is Ok <==> (forall|k: int| 0 <= k < ids@.len() ==> #[trigger] ids@[k] < self@.len()),
            r matches Ok(songs) ==> songs@.len() == ids@.len() && (forall|k: int|
                0 <= k < ids@.len() ==> #[trigger] songs@[k] == self@[ids@[k] as int]),
            r matches Err(e) ==> e == LibraryError::OutOfRange,
    {
        let mut songs: VecDeque<SongRecord> = VecDeque::new();
        let mut k: usize = 0;
        while k < ids.len()
            invariant
                k <= ids@.len(),
                songs@.len() == k,
                forall|j: int| 0 <= j < k ==> #[trigger] ids@[j] < self@.len(),
                forall|j: int| 0 <= j < k ==> #[trigger] songs@[j] == self@[ids@[j] as int],
            decreases ids@.len() - k,
        {
            let id = ids[k];
            if (id as usize) < self.song_table.len() {
                songs.push_back(self.song_table[id as usize]);
            } else {
                return Err(LibraryError::OutOfRange);
            }
            k = k + 1;
        }
        Ok(songs)
    }
}

/// Mathematical model of the whole library: the four property tables plus
/// the song table.
pub ghost struct LibraryModel {
    pub collection: Seq<Seq<PropertyEntryModel>>,
    pub songs: Seq<SongRecord>,
}

/// Well-formed library model: the collection is well formed and every tag id
/// stored in a song record is a valid index into the corresponding property
/// table (cross-table referential integrity).
pub open spec fn library_wf(m: LibraryModel) -> bool {
    &&& collection_wf(m.collection)
    &&& forall|s: int, p: int|
        0 <= s < m.songs.len() && 0 <= p < 4 ==> (#[trigger] m.songs[s].spec_tag_id(p))
            < m.collection[p].len()
}

/// The result of resolving `(song_id, property_id)` through the song table
/// and then the collection, at the model level.
pub open spec fn spec_tag_lookup(m: LibraryModel, song_id: int, property_id: int) -> Result<
    TagModel,
    LibraryError,
> {
    if !(0 <= song_id < m.songs.len()) {
        Err(LibraryError::OutOfRange)
    } else if !(0 <= property_id < 4) {
        Err(LibraryError::OutOfRange)
    } else if property_id >= m.collection.len() {
        Err(LibraryError::OutOfRange)
    } else if m.songs[song_id].spec_tag_id(property_id) >= m.collection[property_id].len() {
        Err(LibraryError::OutOfRange)
    } else {
        Ok(m.collection[property_id][m.songs[song_id].spec_tag_id(property_id) as int].tag)
    }
}

/// The result of resolving a song id to its file path, at the model level:
/// the tag found under the file-path property must be a `FilePath` tag.
pub open spec fn spec_filepath_lookup(m: LibraryModel, song_id: int) -> Result<
    Seq<char>,
    LibraryError,
> {
    match spec_tag_lookup(m, song_id, 3) {
        Ok(t) => match t {
            TagModel::FilePath(s) => Ok(s),
            _ => Err(LibraryError::WrongTagVariant),
        },
        Err(e) => Err(e),
    }
}

/// The library index: owns the metadata collection and the song table by
/// value, read-only after construction, and answers queries in both
/// directions by chaining the two.
#[derive(Debug)]
pub struct LibraryHandler {
    metadata_collection: MetadataCollection,
    song_table: SongTable,
}

impl View for LibraryHandler {
    type V = LibraryModel;

    closed spec fn view(&self) -> LibraryModel {
        LibraryModel { collection: self.metadata_collection@, songs: self.song_table@ }
    }
}

impl LibraryHandler {
    /// Well-formed: see `library_wf`.
    pub open spec fn wf(self) -> bool {
        library_wf(self@)
    }

    /// Composes an index from its two constructed tables.
    pub fn new(metadata_collection: MetadataCollection, song_table: SongTable) -> (r:
        LibraryHandler)
        ensures
            r@.collection == metadata_collection@,
            r@.songs == song_table@,
    {
        LibraryHandler { metadata_collection, song_table }
    }

    /// The tag registered for `song_id` under `property_id`, resolved
    /// through both tables; fails exactly as the model-level lookup does.
    pub fn metadata_tags_from_song_and_property_id(&self, song_id: u32, property_id: u32) -> (r:
        Result<Tag, LibraryError>)
        ensures
            r matches Ok(tag) ==> spec_tag_lookup(self@, song_id as int, property_id as int)
                == Ok::<TagModel, LibraryError>(tag@),
            r matches Err(e) ==> spec_tag_lookup(self@, song_id as int, property_id as int)
                == Err::<TagModel, LibraryError>(e),
    {
        let record = match self.song_table.song_from_song_id(song_id) {
            Ok(record) => record,
            Err(e) => {
                return Err(e);
            },
        };
        let tag_id = match record.tag_id_for_property(property_id) {
            Ok(tag_id) => tag_id,
            Err(e) => {
                return Err(e);
            },
        };
        self.metadata_collection.tag_from_property_and_tag_id(property_id, tag_id)
    }

    /// The four tags registered for `song_id`, in property order; fails with
    /// `OutOfRange` if and only if the song id or one of its tag ids is out
    /// of bounds.
    pub fn metadata_list_from_song_id(&self, song_id: u32) -> (r: Result<VecDeque<Tag>, LibraryError>)
        ensures
            r is Ok <==> (forall|p: int|
                0 <= p < 4 ==> spec_tag_lookup(self@, song_id as int, p) is Ok),
            r matches Ok(tags) ==> tags@.len() == 4 && (forall|p: int|
                0 <= p < 4 ==> spec_tag_lookup(self@, song_id as int, p) == Ok::<
                    TagModel,
                    LibraryError,
                >((#[trigger] tags@[p])@)),
            r matches Err(e) ==> e == LibraryError::OutOfRange,
    {
        let mut tags: VecDeque<Tag> = VecDeque::new();
        let mut property_id: u32 = 0;
        while property_id < 4
            invariant
                property_id <= 4,
                tags@.len() == property_id,
                forall|p: int|
                    0 <= p < property_id ==> spec_tag_lookup(self@, song_id as int, p) == Ok::<
                        TagModel,
                        LibraryError,
                    >((#[trigger] tags@[p])@),
            decreases 4 - property_id,
        {
            match self.metadata_tags_from_song_and_property_id(song_id, property_id) {
                Ok(tag) => {
                    tags.push_back(tag);
                },
                Err(_) => {
                    proof {
                        assert(spec_tag_lookup(self@, song_id as int, property_id as int) is Err);
                        assert(!(forall|p: int|
                            0 <= p < 4 ==> spec_tag_lookup(self@, song_id as int, p) is Ok));
                    }
                    return Err(LibraryError::OutOfRange);
                },
            }
            property_id = property_id + 1;
        }
        proof {
            assert forall|p: int| 0 <= p < 4 implies spec_tag_lookup(
                self@,
                song_id as int,
                p,
            ) is Ok by {
                assert(spec_tag_lookup(self@, song_id as int, p) == Ok::<TagModel, LibraryError>(
                    tags@[p]@,
                ));
            }
        }
        Ok(tags)
    }

    /// Resolves a song id to the text of its registered file-path tag.
    ///
    /// For a well-formed library every in-range song id resolves; an
    /// out-of-range id fails with `OutOfRange`, and a tag of the wrong
    /// variant under the file-path property fails with `WrongTagVariant`.
    pub fn filepath_from_song_id(&self, song_id: u32) -> (r: Result<String, LibraryError>)
        ensures
            r matches Ok(s) ==> spec_filepath_lookup(self@, song_id as int) == Ok::<
                Seq<char>,
                LibraryError,
            >(s@),
            r matches Err(e) ==> spec_filepath_lookup(self@, song_id as int) == Err::<
                Seq<char>,
                LibraryError,
            >(e),
            self.wf() && song_id < self@.songs.len() ==> (r matches Ok(s) && TagModel::FilePath(s@)
                == self@.collection[3][self@.songs[song_id as int].filepath_tag_id as int].tag),
            song_id >= self@.songs.len() ==> r == Err::<String, LibraryError>(
                LibraryError::OutOfRange,
            ),
    {
        let tag = match self.metadata_tags_from_song_and_property_id(song_id, 3) {
            Ok(tag) => tag,
            Err(e) => {
                return Err(e);
            },
        };
        match tag {
            Tag::FilePath(path) => Ok(path),
            _ => Err(LibraryError::WrongTagVariant),
        }
    }

    /// All song ids carrying `tag`: delegates to the collection's linear
    /// scan; an empty result means "no matches", not an error.
    pub fn song_ids_from_tag(&self, tag: Tag) -> (r: VecDeque<u32>)
        ensures
            property_index_of(tag@) < self@.collection.len() ==> r@ == song_ids_for_tag_in(
                self@.collection[property_index_of(tag@)],
                tag@,
            ),
            property_index_of(tag@) >= self@.collection.len() ==> r@ == Seq::<u32>::empty(),
    {
        self.metadata_collection.song_ids_from_tag(tag)
    }

    /// Direct passthrough to the collection's `(property, tag id)` lookup.
    pub fn tag_from_property_and_tag_id(&self, property_id: u32, tag_id: u32) -> (r: Result<
        Tag,
        LibraryError,
    >)
        ensures
            r is Ok <==> property_id < self@.collection.len() && tag_id
                < self@.collection[property_id as int].len(),
            r matches Ok(tag) ==> tag@ == self@.collection[property_id as int][tag_id as int].tag,
            r matches Err(e) ==> e == LibraryError::OutOfRange,
    {
        self.metadata_collection.tag_from_property_and_tag_id(property_id, tag_id)
    }
}

/// Law: for a tag present in the source data, the scan returns exactly the
/// song-id list authored for it (at its first occurrence).
pub proof fn lemma_present_tag_song_ids(table: Seq<PropertyEntryModel>, t: TagModel, j: int)
    requires
        0 <= j < table.len(),
        table[j].tag == t,
        forall|i: int| 0 <= i < j ==> (#[trigger] table[i]).tag != t,
    ensures
        song_ids_for_tag_in(table, t) == table[j].song_ids,
{
    lemma_scan_reaches(table, t, j);
    assert(table.skip(j)[0] == table[j]);
}

/// Law: for a tag matching no entry, the scan returns the empty sequence,
/// never an error.
pub proof fn lemma_absent_tag_song_ids(table: Seq<PropertyEntryModel>, t: TagModel)
    requires
        forall|i: int| 0 <= i < table.len() ==> (#[trigger] table[i]).tag != t,
    ensures
        song_ids_for_tag_in(table, t) == Seq::<u32>::empty(),
{
    lemma_scan_reaches(table, t, table.len() as int);
}

/// A linear scan that has rejected the first `k` entries of `table` finds the
/// same song-id list that a scan of the whole table finds.
proof fn lemma_scan_reaches(table: Seq<PropertyEntryModel>, t: TagModel, k: int)
    requires
        0 <= k <= table.len(),
        forall|j: int| 0 <= j < k ==> (#[trigger] table[j]).tag != t,
    ensures
        song_ids_for_tag_in(table, t) == song_ids_for_tag_in(table.skip(k), t),
    decreases k,
{
    if k == 0 {
        assert(table.skip(0) =~= table);
    } else {
        lemma_scan_reaches(table.drop_first(), t, k - 1);
        assert(table.drop_first().skip(k - 1) =~= table.skip(k));
        assert(song_ids_for_tag_in(table, t) == song_ids_for_tag_in(table.drop_first(), t));
    }
}

} // verus!
