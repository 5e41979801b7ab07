//! One directory entry: display name, absolute path, and whether it is a
//! directory, all fixed when the listing was taken.

use vstd::prelude::*;

verus! {

/// Mathematical image of one directory entry.
#[verifier::ext_equal]
pub ghost struct EntryView {
    pub name: Seq<u8>,
    pub path: Seq<u8>,
    pub is_dir: bool,
}

/// A filesystem child as one pane shows it.  The display name carries a
/// trailing separator when the entry is a directory; `is_dir` is whatever
/// the path resolved to when the listing was taken.
pub struct FileInfo {
    name: Vec<u8>,
    path: Vec<u8>,
    is_dir: bool,
}

impl View for FileInfo {
    type V = EntryView;

    closed spec fn view(&self) -> EntryView {
        EntryView { name: self.name@, path: self.path@, is_dir: self.is_dir }
    }
}

/// The views of a run of entries, in order.
pub open spec fn entries_view(s: Seq<FileInfo>) -> Seq<EntryView> {
    s.map_values(|f: FileInfo| f@)
}

pub const SEPARATOR: u8 = 47;

impl FileInfo {
    /// Builds an entry from its raw name, appending the separator to the
    /// display name of a directory.
    pub fn new(raw_name: Vec<u8>, path: Vec<u8>, is_dir: bool) -> (r: FileInfo)
        ensures
            r@.name == if is_dir {
                raw_name@.push(SEPARATOR)
            } else {
                raw_name@
            },
            r@.path == path@,
            r@.is_dir == is_dir,
    {
        let mut name = raw_name;
        if is_dir {
            name.push(SEPARATOR);
        }
        FileInfo { name, path, is_dir }
    }

    pub fn name(&self) -> (r: &Vec<u8>)
        ensures
            r@ == self@.name,
    {
        &self.name
    }

    pub fn path(&self) -> (r: &Vec<u8>)
        ensures
            r@ == self@.path,
    {
        &self.path
    }

    /// An owned copy of the path.
    pub fn path_owned(&self) -> (r: Vec<u8>)
        ensures
            r@ == self@.path,
    {
        let mut out: Vec<u8> = Vec::new();
        let mut k: usize = 0;
        while k < self.path.len()
            invariant
                k <= self.path.len(),
                out@ == self.path@.take(k as int),
            decreases self.path.len() - k,
        {
            out.push(self.path[k]);
            proof {
                assert(self.path@.take(k + 1) =~= self.path@.take(k as int).push(
                    self.path@[k as int],
                ));
            }
            k = k + 1;
        }
        proof {
            assert(self.path@.take(self.path@.len() as int) =~= self.path@);
        }
        out
    }

    pub fn is_dir(&self) -> (r: bool)
        ensures
            r == self@.is_dir,
    {
        self.is_dir
    }
}

} // verus!
