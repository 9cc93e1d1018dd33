//! Utilities related to files and directories.
use vstd::prelude::*;

use crate::cstr::until_nul;

verus! {

/// Native code of a file entry.
pub const NSPIRE_FILE: u32 = 0;
/// Native code of a directory entry.
pub const NSPIRE_DIR: u32 = 1;

/// The type of entry: a file or directory.
#[derive(Copy, Clone, Debug, Hash, Eq, PartialEq, Structural)]
pub enum EntryType {
    File,
    Directory,
}

impl EntryType {
    /// The kind of entry that a native code stands for.
    pub open spec fn spec_from_code(code: u32) -> EntryType {
        if code == NSPIRE_FILE {
            EntryType::File
        } else {
            EntryType::Directory
        }
    }

    /// Reads a native entry kind; the engine gives no other codes.
    pub fn from_code(code: u32) -> (r: EntryType)
        requires
            code == NSPIRE_FILE || code == NSPIRE_DIR,
        ensures
            r == Self::spec_from_code(code),
    {
        if code == NSPIRE_FILE {
            EntryType::File
        } else {
            EntryType::Directory
        }
    }
}

/// What a directory entry is: its name (without the null terminator), size
/// in bytes, modification date and kind.
pub struct DirEntry {
    pub name: Seq<u8>,
    pub size: u64,
    pub date: u64,
    pub entry_type: EntryType,
}

/// A directory entry: either a file or directory.
#[derive(Clone, Debug)]
pub struct DirItem {
    name: Vec<u8>,
    size: u64,
    date: u64,
    entry_type: EntryType,
}

impl View for DirItem {
    type V = DirEntry;

    closed spec fn view(&self) -> DirEntry {
        DirEntry {
            name: self.name@,
            size: self.size,
            date: self.date,
            entry_type: self.entry_type,
        }
    }
}

impl DirItem {
    /// Copies a native entry record: the name is what its buffer holds
    /// before the first null byte.
    pub fn from_raw(name: &[u8], size: u64, date: u64, type_code: u32) -> (r: DirItem)
        requires
            type_code == NSPIRE_FILE || type_code == NSPIRE_DIR,
        ensures
            r@.name == until_nul(name@),
            r@.size == size,
            r@.date == date,
            r@.entry_type == EntryType::spec_from_code(type_code),
    {
        let mut n: Vec<u8> = Vec::new();
        let mut i: usize = 0;
        while i < name.len() && name[i] != 0
            invariant
                i <= name@.len(),
                n@ == name@.subrange(0, i as int),
                forall|j: int| 0 <= j < i ==> name@[j] != 0,
            decreases name@.len() - i,
        {
            n.push(name[i]);
            i = i + 1;
        }
        proof {
            crate::cstr::lemma_until_nul(name@, i as int);
        }
        DirItem { name: n, size, date, entry_type: EntryType::from_code(type_code) }
    }

    /// The name, without the null terminator.
    pub fn name(&self) -> (r: &[u8])
        ensures
            r@ == self@.name,
    {
        self.name.as_slice()
    }

    pub fn size(&self) -> (r: u64)
        ensures
            r == self@.size,
    {
        self.size
    }

    pub fn date(&self) -> (r: u64)
        ensures
            r == self@.date,
    {
        self.date
    }

    /// Whether this is a file or directory.
    pub fn entry_type(&self) -> (r: EntryType)
        ensures
            r == self@.entry_type,
    {
        self.entry_type
    }
}

/// A list of entries within a directory, in the order the device gave them.
/// It cannot be cloned; `into_items` detaches the entries from it.
#[derive(Debug)]
pub struct DirList {
    items: Vec<DirItem>,
}

impl View for DirList {
    type V = Seq<DirEntry>;

    closed spec fn view(&self) -> Seq<DirEntry> {
        self.items@.map_values(|i: DirItem| i@)
    }
}

impl DirList {
    /// A listing of the given entries, in their order.
    pub fn from_items(items: Vec<DirItem>) -> (r: DirList)
        ensures
            r@ == items@.map_values(|i: DirItem| i@),
    {
        DirList { items }
    }

    /// The number of entries.
    pub fn len(&self) -> (r: usize)
        ensures
            r == self@.len(),
    {
        self.items.len()
    }

    /// Whether the directory is empty.
    pub fn is_empty(&self) -> (r: bool)
        ensures
            r <==> self@.len() == 0,
    {
        self.items.len() == 0
    }

    /// The entry at an index, if there is one.
    pub fn get(&self, index: usize) -> (r: Option<&DirItem>)
        ensures
            r is Some <==> index < self@.len(),
            r matches Some(item) ==> item@ == self@[index as int],
    {
        if index < self.items.len() {
            Some(&self.items[index])
        } else {
            None
        }
    }

    /// The entries, as a slice.
    pub fn as_slice(&self) -> (r: &[DirItem])
        ensures
            r@.map_values(|i: DirItem| i@) == self@,
    {
        self.items.as_slice()
    }

    /// Detaches the entries from the listing.
    pub fn into_items(self) -> (r: Vec<DirItem>)
        ensures
            r@.map_values(|i: DirItem| i@) == self@,
    {
        self.items
    }
}

} // verus!
