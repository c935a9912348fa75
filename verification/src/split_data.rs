//! The tile coordinates recorded for one source image.

use vstd::prelude::*;
use vstd::string::StringExecFns;
use crate::text::{fields, parse_u32, parsed_u32, split_fields, texts};

verus! {

/// The file name that the parts of a tile name stand for: the first three
/// parts joined by underscores, with the extension `.tif`.
pub open spec fn source_name(a: Seq<char>, b: Seq<char>, c: Seq<char>) -> Seq<char> {
    a + seq!['_'] + b + seq!['_'] + c + seq!['.', 't', 'i', 'f']
}

/// A source image's file name and the corners of its tiles.
#[derive(Debug)]
pub struct SplitData {
    name: String,
    coords: Vec<(u32, u32)>,
}

impl SplitData {
    pub closed spec fn spec_name(self) -> Seq<char> {
        self.name@
    }

    pub closed spec fn spec_coords(self) -> Seq<(u32, u32)> {
        self.coords@
    }

    /// The record of the source image that the parts of a tile name speak
    /// of, without corners.
    pub fn new(split: Vec<&str>) -> (data: SplitData)
        requires
            split@.len() >= 3,
        ensures
            data.spec_name() == source_name(split@[0]@, split@[1]@, split@[2]@),
            data.spec_coords() == Seq::<(u32, u32)>::empty(),
    {
        proof {
            reveal_strlit("_");
            reveal_strlit(".tif");
        }
        let mut file_name = String::from_str(split[0]);
        file_name.append("_");
        file_name.append(split[1]);
        file_name.append("_");
        file_name.append(split[2]);
        file_name.append(".tif");
        SplitData { name: file_name, coords: Vec::new() }
    }

    /// Records one more corner.
    pub fn add_data(&mut self, tuple: (u32, u32))
        ensures
            final(self).spec_coords() == old(self).spec_coords().push(tuple),
            final(self).spec_name() == old(self).spec_name(),
    {
        self.coords.push(tuple);
    }

    pub fn get_name(&self) -> (name: &str)
        ensures
            name@ == self.spec_name(),
    {
        self.name.as_str()
    }

    /// The recorded corners, in the order in which they were added.
    pub fn get_coords(&self) -> (coords: &Vec<(u32, u32)>)
        ensures
            coords@ == self.spec_coords(),
    {
        &self.coords
    }
}

/// The mathematical value of a record: the key it is found by, the file
/// name of its source image, and its corners.
pub struct RecordView {
    pub key: Seq<char>,
    pub name: Seq<char>,
    pub coords: Seq<(u32, u32)>,
}

/// What one line of a tile list says: the key and the file name of the
/// source image, and the corner of the tile.
pub struct LineView {
    pub key: Seq<char>,
    pub name: Seq<char>,
    pub corner: (u32, u32),
}

/// A line of a tile list that cannot be read.
#[derive(Clone, Copy, Debug, PartialEq, Eq, Structural)]
pub struct SplitMapError {
    /// The number of the line, counted from zero.
    pub line: usize,
}

/// What a line of a tile list says. The line's first word, up to the first
/// blank, is a tile name of at least five parts joined by underscores: the
/// first two parts make the key, the first three the file name, and the
/// fourth and fifth are the corner. Nothing for any other line.
pub open spec fn line_entry(line: Seq<char>) -> Option<LineView> {
    let parts = fields(fields(line, ' ')[0], '_');
    if parts.len() >= 5 && parsed_u32(parts[3]) is Some && parsed_u32(parts[4]) is Some {
        Some(
            LineView {
                key: parts[0] + parts[1],
                name: source_name(parts[0], parts[1], parts[2]),
                corner: (parsed_u32(parts[3])->0, parsed_u32(parts[4])->0),
            },
        )
    } else {
        None
    }
}

/// The position of the record with the given key; nothing where there is
/// none.
pub open spec fn record_of(records: Seq<RecordView>, key: Seq<char>) -> Option<int>
    decreases records.len(),
{
    if records.len() == 0 {
        None
    } else if records.last().key == key {
        Some(records.len() - 1)
    } else {
        record_of(records.drop_last(), key)
    }
}

/// The records after one more line: the corner is added to the record of
/// the line's key, where there is one; otherwise a record without corners
/// is opened for the key.
pub open spec fn recorded(records: Seq<RecordView>, entry: LineView) -> Seq<RecordView> {
    match record_of(records, entry.key) {
        Some(k) => records.update(
            k,
            RecordView { coords: records[k].coords.push(entry.corner), ..records[k] },
        ),
        None => records.push(
            RecordView { key: entry.key, name: entry.name, coords: Seq::empty() },
        ),
    }
}

/// The records of the lines of a tile list, in the order in which their
/// keys first occur; the number of the first line that cannot be read
/// where there is one.
pub open spec fn split_map(lines: Seq<Seq<char>>) -> Result<Seq<RecordView>, nat>
    decreases lines.len(),
{
    if lines.len() == 0 {
        Ok(Seq::empty())
    } else {
        match split_map(lines.drop_last()) {
            Err(n) => Err(n),
            Ok(records) => match line_entry(lines.last()) {
                None => Err((lines.len() - 1) as nat),
                Some(entry) => Ok(recorded(records, entry)),
            },
        }
    }
}

/// The values of keyed records.
pub open spec fn record_views(entries: Seq<(String, SplitData)>) -> Seq<RecordView> {
    Seq::new(
        entries.len(),
        |i: int|
            RecordView {
                key: entries[i].0@,
                name: entries[i].1.spec_name(),
                coords: entries[i].1.spec_coords(),
            },
    )
}

/// The characters of the lines of a list.
pub open spec fn line_texts(lines: Seq<String>) -> Seq<Seq<char>> {
    Seq::new(lines.len(), |i: int| lines[i]@)
}

/// The record of a key is the last one whose key it is.
pub proof fn lemma_record_of(records: Seq<RecordView>, key: Seq<char>, i: int)
    requires
        -1 <= i < records.len(),
        forall|k: int| i < k < records.len() ==> records[k].key != key,
        i == -1 || records[i].key == key,
    ensures
        record_of(records, key) == if i == -1 {
            None
        } else {
            Some(i)
        },
    decreases records.len(),
{
    if records.len() > 0 && i < records.len() - 1 {
        let rest = records.drop_last();
        assert(forall|k: int| i < k < rest.len() ==> rest[k].key != key);
        lemma_record_of(rest, key, i);
    }
}

/// The position of the record with the given key.
pub fn find_record(entries: &Vec<(String, SplitData)>, key: &String) -> (found: Option<usize>)
    ensures
        match found {
            Some(k) => record_of(record_views(entries@), key@) == Some(k as int) && k
                < entries@.len(),
            None => record_of(record_views(entries@), key@) is None,
        },
{
    let mut i: usize = entries.len();
    while i > 0
        invariant
            i <= entries@.len(),
            forall|k: int| i <= k < entries@.len() ==> record_views(entries@)[k].key != key@,
        decreases i,
    {
        i = i - 1;
        if entries[i].0 == *key {
            proof {
                lemma_record_of(record_views(entries@), key@, i as int);
            }
            return Some(i);
        }
    }
    proof {
        lemma_record_of(record_views(entries@), key@, -1);
    }
    None
}

/// Reads the lines of a tile list into one record for each source image.
/// The first line of a source image opens its record; every later line of
/// that image adds its corner to the record. Returns the number of the
/// first line that cannot be read where there is one.
#[verifier::loop_isolation(false)]
pub fn create_splitmap(lines: &Vec<String>) -> (made: Result<
    Vec<(String, SplitData)>,
    SplitMapError,
>)
    ensures
        match made {
            Ok(entries) => split_map(line_texts(lines@)) == Ok::<Seq<RecordView>, nat>(
                record_views(entries@),
            ),
            Err(e) => split_map(line_texts(lines@)) == Err::<Seq<RecordView>, nat>(e.line as nat),
        },
{
    let ghost all = line_texts(lines@);
    let mut entries: Vec<(String, SplitData)> = Vec::new();
    let mut n: usize = 0;
    assert(record_views(entries@) =~= Seq::<RecordView>::empty());
    while n < lines.len()
        invariant
            n <= lines@.len(),
            all == line_texts(lines@),
            split_map(all.take(n as int)) == Ok::<Seq<RecordView>, nat>(record_views(entries@)),
        decreases lines@.len() - n,
    {
        let ghost before = record_views(entries@);
        proof {
            assert(all.take(n + 1).drop_last() =~= all.take(n as int));
        }
        let words = split_fields(lines[n].as_str(), ' ');
        let parts = split_fields(words[0], '_');
        if parts.len() < 5 {
            proof {
                lemma_error_stays(all, n as int);
            }
            return Err(SplitMapError { line: n });
        }
        assert(texts(parts@)[0] == parts@[0]@ && texts(parts@)[1] == parts@[1]@ && texts(
            parts@,
        )[2] == parts@[2]@ && texts(parts@)[3] == parts@[3]@ && texts(parts@)[4] == parts@[4]@);
        let corner = match (parse_u32(parts[3]), parse_u32(parts[4])) {
            (Some(x), Some(y)) => (x, y),
            _ => {
                proof {
                    lemma_error_stays(all, n as int);
                }
                return Err(SplitMapError { line: n });
            },
        };
        let mut key = String::from_str(parts[0]);
        key.append(parts[1]);
        match find_record(&entries, &key) {
            Some(k) => {
                let (found_key, mut data) = entries.remove(k);
                data.add_data(corner);
                entries.insert(k, (found_key, data));
                assert(record_views(entries@) =~= recorded(before, line_entry(lines@[n as int]@)->0));
            },
            None => {
                let data = SplitData::new(parts);
                entries.push((key, data));
                assert(record_views(entries@) =~= recorded(before, line_entry(lines@[n as int]@)->0));
            },
        }
        n = n + 1;
    }
    assert(all.take(lines@.len() as int) =~= all);
    Ok(entries)
}

/// A list whose beginning cannot be read cannot be read, and fails at the
/// same line.
pub proof fn lemma_error_stays(lines: Seq<Seq<char>>, n: int)
    requires
        0 <= n < lines.len(),
        split_map(lines.take(n)) is Ok,
        line_entry(lines[n]) is None,
    ensures
        split_map(lines) == Err::<Seq<RecordView>, nat>(n as nat),
    decreases lines.len(),
{
    if n < lines.len() - 1 {
        assert(lines.drop_last().take(n) =~= lines.take(n));
        lemma_error_stays(lines.drop_last(), n);
    }
}

} // verus!
