//! Files pulled into a shader source by its preprocessor directives.

use vstd::prelude::*;
use crate::bytes::{prefix_of, str_eq};
use crate::error::Error;

verus! {

/// Whether a directive names a local or a system file.
#[derive(Debug, Clone, Copy, PartialEq, Eq, Structural)]
pub enum IncludeType {
    /// A quoted file name, searched next to the including file first.
    Local,
    /// An angle-bracketed file name, searched on the system paths.
    System,
}

impl From<u32> for IncludeType {
    fn from(value: u32) -> (r: IncludeType) {
        if value == 0 {
            IncludeType::Local
        } else {
            IncludeType::System
        }
    }
}

impl vstd::std_specs::convert::FromSpecImpl<u32> for IncludeType {
    open spec fn obeys_from_spec() -> bool {
        true
    }

    open spec fn from_spec(value: u32) -> IncludeType {
        if value == 0 {
            IncludeType::Local
        } else {
            IncludeType::System
        }
    }
}

/// Supplies the contents of the files a shader source pulls in.
pub trait IncludeHandler {
    /// The contents of `filename`, or an error when it cannot be had.
    fn open(&mut self, include_type: IncludeType, filename: &str) -> Result<Vec<u8>, Error>;
}

/// Resolves file names against a list of directories, in order.
pub struct FileSystemInclude {
    search_paths: Vec<String>,
}

impl FileSystemInclude {
    /// The directories, in search order.
    pub closed spec fn view(&self) -> Seq<Seq<char>> {
        Seq::new(self.search_paths@.len(), |i: int| self.search_paths@[i]@)
    }

    /// A handler with no search path.
    pub fn new() -> (r: FileSystemInclude)
        ensures
            r@ == Seq::<Seq<char>>::empty(),
    {
        let r = FileSystemInclude { search_paths: Vec::new() };
        assert(r@ =~= Seq::<Seq<char>>::empty());
        r
    }

    /// This handler with `path` searched after the others.
    pub fn with_path(self, path: &str) -> (r: FileSystemInclude)
        ensures
            r@ == self@.push(path@),
    {
        let mut r = self;
        r.add_path(path);
        r
    }

    /// Searches `path` after the other directories.
    pub fn add_path(&mut self, path: &str)
        ensures
            final(self)@ == old(self)@.push(path@),
    {
        self.search_paths.push(path.to_owned());
        assert(self@ =~= old(self)@.push(path@));
    }

    /// The directories, in search order.
    pub fn search_paths(&self) -> (r: &[String])
        ensures
            r@.len() == self@.len(),
            forall|i: int| 0 <= i < r@.len() ==> r@[i]@ == #[trigger] self@[i],
    {
        self.search_paths.as_slice()
    }
}

/// Serves files registered in memory.
pub struct MemoryInclude {
    files: Vec<(String, Vec<u8>)>,
}

/// The contents registered under `name`; a later registration wins.
pub open spec fn registered(files: Seq<(Seq<char>, Seq<u8>)>, name: Seq<char>) -> Option<Seq<u8>>
    decreases files.len(),
{
    if files.len() == 0 {
        None
    } else if files.last().0 == name {
        Some(files.last().1)
    } else {
        registered(files.drop_last(), name)
    }
}

impl MemoryInclude {
    /// The registrations, in order.
    pub closed spec fn view(&self) -> Seq<(Seq<char>, Seq<u8>)> {
        Seq::new(self.files@.len(), |i: int| (self.files@[i].0@, self.files@[i].1@))
    }

    /// A handler with no file.
    pub fn new() -> (r: MemoryInclude)
        ensures
            r@ == Seq::<(Seq<char>, Seq<u8>)>::empty(),
    {
        let r = MemoryInclude { files: Vec::new() };
        assert(r@ =~= Seq::<(Seq<char>, Seq<u8>)>::empty());
        r
    }

    /// Registers `contents` under `filename`, replacing an earlier file of
    /// that name.
    pub fn add(&mut self, filename: &str, contents: &[u8])
        ensures
            final(self)@ == old(self)@.push((filename@, contents@)),
    {
        let c = prefix_of(contents, contents.len());
        assert(c@ =~= contents@);
        self.files.push((filename.to_owned(), c));
        assert(self@ =~= old(self)@.push((filename@, contents@)));
    }

    /// This handler with `contents` registered under `filename`.
    pub fn with_file(self, filename: &str, contents: &[u8]) -> (r: MemoryInclude)
        ensures
            r@ == self@.push((filename@, contents@)),
    {
        let mut r = self;
        r.add(filename, contents);
        r
    }

    /// The contents registered under `filename`.
    pub fn lookup(&self, filename: &str) -> (r: Option<Vec<u8>>)
        ensures
            match r {
                Some(v) => registered(self@, filename@) == Some(v@),
                None => registered(self@, filename@) is None,
            },
    {
        let ghost fv = self@;
        let mut i: usize = self.files.len();
        assert(fv.take(i as int) =~= fv);
        while i > 0
            invariant
                i <= self.files@.len(),
                fv == self@,
                registered(fv.take(i as int), filename@) == registered(fv, filename@),
            decreases i,
        {
            let e = &self.files[i - 1];
            assert(fv.take(i as int).last() == fv[i - 1]);
            if str_eq(e.0.as_str(), filename) {
                let c = prefix_of(e.1.as_slice(), e.1.len());
                assert(c@ =~= e.1@);
                return Some(c);
            }
            assert(fv.take(i as int).drop_last() =~= fv.take(i - 1));
            i = i - 1;
        }
        None
    }
}

impl IncludeHandler for MemoryInclude {
    fn open(&mut self, include_type: IncludeType, filename: &str) -> (r: Result<Vec<u8>, Error>) {
        match self.lookup(filename) {
            Some(v) => Ok(v),
            None => Err(Error::IncludeNotFound(filename.to_owned())),
        }
    }
}

} // verus!
