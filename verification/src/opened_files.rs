//! The files that have been opened, by repository, with the time each was last
//! opened. Paths are held as text and times as integers (the caller's clock
//! readings), so lookups are exact.
use vstd::prelude::*;

use vstd::hash_map::StringHashMap;

verus! {

/// The files opened in one repository: each path with the time it was last opened.
pub struct OpenedFilesInRepo(pub StringHashMap<u64>);

impl OpenedFilesInRepo {
    /// The opened files: path to time last opened.
    pub closed spec fn files(&self) -> Map<Seq<char>, u64> {
        self.0@
    }

    /// When the file at `file_path` was last opened, if it was.
    pub fn get(&self, file_path: &str) -> (r: Option<&u64>)
        ensures
            match r {
                Some(t) => self.files().contains_key(file_path@) && *t == self.files()[file_path@],
                None => !self.files().contains_key(file_path@),
            },
    {
        self.0.get(file_path)
    }
}

impl Default for OpenedFilesInRepo {
    /// No file opened.
    fn default() -> (r: Self)
        ensures
            r.files() == Map::<Seq<char>, u64>::empty(),
    {
        OpenedFilesInRepo(StringHashMap::new())
    }
}

/// The files that have been opened, by repository path.
pub struct OpenedFilesModel {
    opened_files: StringHashMap<OpenedFilesInRepo>,
}

impl OpenedFilesModel {
    /// The repositories with opened files, each with its files.
    pub closed spec fn repos(&self) -> Map<Seq<char>, OpenedFilesInRepo> {
        self.opened_files@
    }

    /// A model with no opened files.
    pub fn new() -> (r: Self)
        ensures
            r.repos() == Map::<Seq<char>, OpenedFilesInRepo>::empty(),
    {
        OpenedFilesModel { opened_files: StringHashMap::new() }
    }

    /// The opened files of the repository at `repo_path`, if it has any.
    pub fn opened_files_for_repo(&self, repo_path: &str) -> (r: Option<&OpenedFilesInRepo>)
        ensures
            match r {
                Some(f) => self.repos().contains_key(repo_path@) && *f == self.repos()[repo_path@],
                None => !self.repos().contains_key(repo_path@),
            },
    {
        self.opened_files.get(repo_path)
    }
}

impl Default for OpenedFilesModel {
    /// No opened files.
    fn default() -> (r: Self)
        ensures
            r.repos() == Map::<Seq<char>, OpenedFilesInRepo>::empty(),
    {
        Self::new()
    }
}

} // verus!
