use vstd::prelude::*;
use vstd::string::*;

verus! {

/// One entry of a directory listing. It is made anew on every scan and
/// never changed afterwards.
#[derive(Debug)]
pub struct FileEntry {
    pub name: String,
    pub path: String,
    pub is_dir: bool,
    /// Milliseconds since the Unix epoch, UTC.
    pub last_modified: u64,
}

/// The mathematical value of a [`FileEntry`].
pub struct FileEntryView {
    pub name: Seq<char>,
    pub path: Seq<char>,
    pub is_dir: bool,
    pub last_modified: u64,
}

impl View for FileEntry {
    type V = FileEntryView;

    open spec fn view(&self) -> FileEntryView {
        FileEntryView {
            name: self.name@,
            path: self.path@,
            is_dir: self.is_dir,
            last_modified: self.last_modified,
        }
    }
}

/// A name that begins with a dot marks a hidden entry.
pub open spec fn is_hidden(name: Seq<char>) -> bool {
    name.len() > 0 && name[0] == '.'
}

/// The modification time of an entry in milliseconds since the epoch, as
/// a 64-bit number: zero where the OS reported no time at or after the epoch,
/// and the low 64 bits of a count that does not fit.
pub open spec fn millis_or_epoch(reported: Option<u128>) -> u64 {
    match reported {
        Some(millis) => (millis % 0x1_0000_0000_0000_0000) as u64,
        None => 0,
    }
}

/// Turns the modification time that the OS reported, if any, into the
/// timestamp of an entry. A missing time never fails a listing.
pub fn timestamp_millis(reported: Option<u128>) -> (stamp: u64)
    ensures
        stamp == millis_or_epoch(reported),
{
    match reported {
        Some(millis) => (millis % 0x1_0000_0000_0000_0000) as u64,
        None => 0,
    }
}

impl FileEntry {
    /// The entry for a file or directory called `name` at `path`, with the
    /// modification time that the OS reported for it, if any.
    pub fn new(name: String, path: String, is_dir: bool, modified: Option<u128>) -> (entry:
        FileEntry)
        ensures
            entry@ == (FileEntryView {
                name: name@,
                path: path@,
                is_dir,
                last_modified: millis_or_epoch(modified),
            }),
    {
        FileEntry { name, path, is_dir, last_modified: timestamp_millis(modified) }
    }

    /// Whether the entry is hidden.
    pub fn is_hidden(&self) -> (hidden: bool)
        ensures
            hidden == is_hidden(self@.name),
    {
        let name = self.name.as_str();
        if name.is_empty() {
            false
        } else {
            name.get_char(0) == '.'
        }
    }

    /// A copy of the entry.
    pub fn duplicate(&self) -> (copy: FileEntry)
        ensures
            copy@ == self@,
    {
        FileEntry {
            name: self.name.clone(),
            path: self.path.clone(),
            is_dir: self.is_dir,
            last_modified: self.last_modified,
        }
    }
}

} // verus!
