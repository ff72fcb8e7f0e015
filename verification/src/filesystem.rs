//! Finding the files that a chart names: by the stem of the file name,
//! among the files whose extension is allowed.

use vstd::prelude::*;
use crate::text::{eq_ignore_ascii_case, same_ignoring_case};

verus! {

/// A file found in a directory.
#[derive(Clone, Debug, PartialEq, Eq)]
pub struct FileEntry {
    /// File name without its extension.
    pub stem: String,
    /// Extension, without the dot.
    pub ext: String,
    /// Where the file is.
    pub path: String,
}

/// The files chosen for the stems of a directory listing.
pub struct StemIndex {
    /// Stem and path of each chosen file; no stem stands twice.
    entries: Vec<(String, String)>,
}

/// Whether an extension is one of the allowed ones, ignoring ASCII case.
pub open spec fn is_allowed(ext: Seq<char>, exts: Seq<Seq<char>>) -> bool {
    exists|i: int| 0 <= i < exts.len() && same_ignoring_case(ext, #[trigger] exts[i])
}

/// Whether a list of chosen files holds one for `stem`.
pub open spec fn has_stem(found: Seq<(Seq<char>, String)>, stem: Seq<char>) -> bool {
    exists|i: int| 0 <= i < found.len() && (#[trigger] found[i]).0 == stem
}

/// The files chosen from a listing: of the files with an allowed extension,
/// the first for each stem, in the order of the listing.
pub open spec fn chosen(entries: Seq<FileEntry>, exts: Seq<Seq<char>>) -> Seq<(Seq<char>, String)>
    decreases entries.len(),
{
    if entries.len() == 0 {
        Seq::empty()
    } else {
        let before = chosen(entries.drop_last(), exts);
        let last = entries.last();
        if is_allowed(last.ext@, exts) && !has_stem(before, last.stem@) {
            before.push((last.stem@, last.path))
        } else {
            before
        }
    }
}

/// Whether `i` is the place of the first file chosen for `stem`.
pub open spec fn is_first(found: Seq<(Seq<char>, String)>, stem: Seq<char>, i: int) -> bool {
    &&& 0 <= i < found.len()
    &&& found[i].0 == stem
    &&& forall|j: int| 0 <= j < i ==> (#[trigger] found[j]).0 != stem
}

/// The views of a list of texts.
pub open spec fn texts(list: Seq<String>) -> Seq<Seq<char>> {
    Seq::new(list.len(), |i: int| list[i]@)
}

/// Tells whether an extension is one of the allowed ones, ignoring ASCII
/// case.
pub fn extension_allowed(ext: &String, exts: &Vec<String>) -> (allowed: bool)
    ensures
        allowed == is_allowed(ext@, texts(exts@)),
{
    let mut i: usize = 0;
    while i < exts.len()
        invariant
            i <= exts.len(),
            forall|j: int| 0 <= j < i ==> !same_ignoring_case(ext@, #[trigger] texts(exts@)[j]),
        decreases exts.len() - i,
    {
        assert(texts(exts@)[i as int] == exts@[i as int]@);
        if eq_ignore_ascii_case(ext.as_str(), exts[i].as_str()) {
            return true;
        }
        i += 1;
    }
    false
}

impl StemIndex {
    /// Stem and path of each chosen file.
    pub closed spec fn view(&self) -> Seq<(Seq<char>, String)> {
        Seq::new(self.entries@.len(), |i: int| (self.entries@[i].0@, self.entries@[i].1))
    }

    /// An index without files.
    pub fn new() -> (index: Self)
        ensures
            index@ == Seq::<(Seq<char>, String)>::empty(),
    {
        let index = StemIndex { entries: Vec::new() };
        assert(index@ =~= Seq::<(Seq<char>, String)>::empty());
        index
    }

    /// Number of chosen files.
    pub fn len(&self) -> (n: usize)
        ensures
            n == self@.len(),
    {
        self.entries.len()
    }

    /// Position of the file chosen for a stem.
    fn position(&self, stem: &String) -> (at: Option<usize>)
        ensures
            match at {
                Some(i) => is_first(self@, stem@, i as int),
                None => !has_stem(self@, stem@),
            },
    {
        let mut i: usize = 0;
        while i < self.entries.len()
            invariant
                i <= self.entries@.len(),
                forall|j: int| 0 <= j < i ==> (#[trigger] self@[j]).0 != stem@,
            decreases self.entries.len() - i,
        {
            if self.entries[i].0 == *stem {
                return Some(i);
            }
            i += 1;
        }
        None
    }

    /// The path chosen for a stem, if one was.
    pub fn get(&self, stem: &String) -> (path: Option<String>)
        ensures
            match path {
                Some(p) => exists|i: int| #[trigger] is_first(self@, stem@, i) && self@[i].1 == p,
                None => !has_stem(self@, stem@),
            },
    {
        match self.position(stem) {
            Some(i) => {
                assert(is_first(self@, stem@, i as int));
                Some(self.entries[i].1.clone())
            },
            None => None,
        }
    }

    /// Records a file for a stem unless the stem has one already.
    fn insert_first(&mut self, stem: String, path: String)
        ensures
            final(self)@ == if has_stem(old(self)@, stem@) {
                old(self)@
            } else {
                old(self)@.push((stem@, path))
            },
    {
        match self.position(&stem) {
            Some(_) => {},
            None => {
                self.entries.push((stem, path));
                assert(self@ =~= old(self)@.push((stem@, path)));
            },
        }
    }
}

/// Chooses, among the files of a listing whose extension is allowed, the
/// first for each stem.
pub fn choose_paths_by_ext(entries: &Vec<FileEntry>, exts: &Vec<String>) -> (found: StemIndex)
    ensures
        found@ == chosen(entries@, texts(exts@)),
{
    let mut found = StemIndex::new();
    let mut i: usize = 0;
    while i < entries.len()
        invariant
            i <= entries.len(),
            found@ == chosen(entries@.take(i as int), texts(exts@)),
        decreases entries.len() - i,
    {
        assert(entries@.take(i + 1).drop_last() =~= entries@.take(i as int));
        assert(entries@.take(i + 1).last() == entries@[i as int]);
        if extension_allowed(&entries[i].ext, exts) {
            found.insert_first(entries[i].stem.clone(), entries[i].path.clone());
        }
        i += 1;
    }
    assert(entries@.take(i as int) =~= entries@);
    found
}

} // verus!
