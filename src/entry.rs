use vstd::prelude::*;

verus! {

/// A point in time as its distance from the Unix epoch: the direction, and the
/// magnitude in whole milliseconds.
#[derive(Clone, Copy, Debug, PartialEq, Eq, Structural)]
pub struct EpochOffset {
    /// The point lies before the epoch.
    pub before_epoch: bool,
    /// Whole milliseconds between the point and the epoch.
    pub millis: u128,
}

/// The three timestamps that the file system may report for an entry; each is
/// `None` where the platform cannot supply it.
#[derive(Clone, Copy, Debug, PartialEq, Eq, Structural)]
pub struct RawMetadata {
    pub accessed: Option<EpochOffset>,
    pub modified: Option<EpochOffset>,
    pub created: Option<EpochOffset>,
}

/// One entry of a directory as the file system reported it.
#[derive(Clone, Debug)]
pub struct RawEntry {
    /// The entry's file name.
    pub name: String,
    /// The entry's full path.
    pub path: String,
    /// Whether the path is a directory.
    pub is_dir: bool,
    /// The extension of the path, if it has one.
    pub ext: Option<String>,
    /// The entry's metadata, `None` where it could not be read.
    pub metadata: Option<RawMetadata>,
}

/// One entry of a directory listing; timestamps are milliseconds from the epoch.
#[derive(Clone, Debug)]
pub struct DirEntry {
    pub name: String,
    pub path: String,
    pub is_dir: bool,
    pub ext: Option<String>,
    pub atime: Option<u64>,
    pub mtime: Option<u64>,
    pub ctime: Option<u64>,
}

/// The distance of `t` from the epoch in milliseconds, kept to its low 64 bits.
pub open spec fn spec_millis(t: EpochOffset) -> u64 {
    (t.millis % 0x1_0000_0000_0000_0000u128) as u64
}

pub open spec fn spec_millis_since(time: Option<EpochOffset>) -> Option<u64> {
    match time {
        Some(t) => Some(spec_millis(t)),
        None => None,
    }
}

/// The listing entry made from a readable directory entry.
pub open spec fn spec_entry(raw: RawEntry) -> DirEntry {
    DirEntry {
        name: raw.name,
        path: raw.path,
        is_dir: raw.is_dir,
        ext: raw.ext,
        atime: match raw.metadata {
            Some(m) => spec_millis_since(m.accessed),
            None => None,
        },
        mtime: match raw.metadata {
            Some(m) => spec_millis_since(m.modified),
            None => None,
        },
        ctime: match raw.metadata {
            Some(m) => spec_millis_since(m.created),
            None => None,
        },
    }
}

/// The listing of a directory: each readable entry, in the order given, and
/// nothing for an entry that could not be read.
pub open spec fn spec_listing(raw: Seq<Option<RawEntry>>) -> Seq<DirEntry>
    decreases raw.len(),
{
    if raw.len() == 0 {
        Seq::empty()
    } else {
        let rest = spec_listing(raw.drop_last());
        match raw.last() {
            Some(e) => rest.push(spec_entry(e)),
            None => rest,
        }
    }
}

/// Milliseconds between a timestamp and the epoch, in either direction; `None`
/// where no timestamp was available. A distance beyond `u64` keeps its low
/// 64 bits.
pub fn millis_since(time: Option<EpochOffset>) -> (r: Option<u64>)
    ensures
        r == spec_millis_since(time),
{
    match time {
        Some(t) => Some((t.millis % 0x1_0000_0000_0000_0000u128) as u64),
        None => None,
    }
}

fn clone_ext(ext: &Option<String>) -> (r: Option<String>)
    ensures
        r == *ext,
{
    match ext {
        Some(s) => Some(s.clone()),
        None => None,
    }
}

fn entry_of(raw: &RawEntry) -> (r: DirEntry)
    ensures
        r == spec_entry(*raw),
{
    let (atime, mtime, ctime) = match raw.metadata {
        Some(m) => (millis_since(m.accessed), millis_since(m.modified), millis_since(m.created)),
        None => (None, None, None),
    };
    DirEntry {
        name: raw.name.clone(),
        path: raw.path.clone(),
        is_dir: raw.is_dir,
        ext: clone_ext(&raw.ext),
        atime,
        mtime,
        ctime,
    }
}

/// The listing of a directory from its entries as read: every readable entry
/// in the order given, entries that could not be read skipped.
pub fn read_dir(entries: &Vec<Option<RawEntry>>) -> (r: Vec<DirEntry>)
    ensures
        r@ == spec_listing(entries@),
{
    let mut items: Vec<DirEntry> = Vec::new();
    let mut i: usize = 0;
    while i < entries.len()
        invariant
            i <= entries.len(),
            items@ == spec_listing(entries@.take(i as int)),
        decreases entries.len() - i,
    {
        assert(entries@.take(i as int + 1).drop_last() == entries@.take(i as int));
        match &entries[i] {
            Some(raw) => {
                items.push(entry_of(raw));
            },
            None => {},
        }
        i = i + 1;
    }
    assert(entries@.take(entries.len() as int) == entries@);
    items
}

} // verus!
