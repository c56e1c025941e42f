//! Where a file opened in the code editor comes from.
use vstd::prelude::*;

verus! {

/// The origin of a file opened in the code editor. Paths are held as text;
/// `LineCol` is a position (line and column) in a file.
#[derive(Debug, Clone, PartialEq, Eq, Hash)]
pub enum CodeSource<LineCol> {
    /// A new file, to be saved under the directory if one is given.
    New { default_directory: Option<String> },
    /// A link to a file, possibly to a range in it.
    Link { path: String, range_start: Option<LineCol>, range_end: Option<LineCol> },
    ProjectRules { path: String },
    FileTree { path: String },
    Finder { path: String },
}

impl<LineCol> CodeSource<LineCol> {
    /// The path of the file, for every source but a new file.
    pub open spec fn spec_path(self) -> Option<String> {
        match self {
            CodeSource::New { .. } => None,
            CodeSource::Link { path, .. } => Some(path),
            CodeSource::ProjectRules { path } => Some(path),
            CodeSource::FileTree { path } => Some(path),
            CodeSource::Finder { path } => Some(path),
        }
    }

    /// The same source without the range of a link.
    pub open spec fn without_line_col(self) -> Self {
        match self {
            CodeSource::Link { path, .. } => CodeSource::Link {
                path,
                range_start: None,
                range_end: None,
            },
            _ => self,
        }
    }

    /// The directory a new file is saved under; `None` for every other source.
    pub fn default_directory(&self) -> (r: Option<&String>)
        ensures
            r == (match *self {
                CodeSource::New { default_directory } => match default_directory {
                    Some(d) => Some(&d),
                    None => None,
                },
                _ => None,
            }),
    {
        match self {
            CodeSource::New { default_directory } => default_directory.as_ref(),
            CodeSource::Link { .. }
            | CodeSource::ProjectRules { .. }
            | CodeSource::FileTree { .. }
            | CodeSource::Finder { .. } => None,
        }
    }

    /// The path of the file; `None` for a new file.
    pub fn path(&self) -> (r: Option<String>)
        ensures
            r == self.spec_path(),
    {
        match self {
            CodeSource::New { .. } => None,
            CodeSource::Link { path, .. } => Some(path.clone()),
            CodeSource::ProjectRules { path } => Some(path.clone()),
            CodeSource::FileTree { path } => Some(path.clone()),
            CodeSource::Finder { path } => Some(path.clone()),
        }
    }

    /// The same source with the range of a link dropped; every other source
    /// is returned as it is.
    pub fn omit_line_col(&self) -> (r: Self)
        ensures
            r == self.without_line_col(),
    {
        match self {
            CodeSource::Link { path, .. } => CodeSource::Link {
                path: path.clone(),
                range_start: None,
                range_end: None,
            },
            CodeSource::New { default_directory } => {
                let d = match default_directory {
                    Some(d) => Some(d.clone()),
                    None => None,
                };
                CodeSource::New { default_directory: d }
            },
            CodeSource::ProjectRules { path } => CodeSource::ProjectRules { path: path.clone() },
            CodeSource::FileTree { path } => CodeSource::FileTree { path: path.clone() },
            CodeSource::Finder { path } => CodeSource::Finder { path: path.clone() },
        }
    }
}

/// Dropping the range of a source keeps its path, and dropping it again
/// changes nothing.
pub proof fn law_omit_line_col_idempotent<LineCol>(s: CodeSource<LineCol>)
    ensures
        s.without_line_col().spec_path() == s.spec_path(),
        s.without_line_col().without_line_col() == s.without_line_col(),
{
}

/// Every source but a new file has a path; dropping the range leaves a link without
/// range, of the same kind, and leaves every other source as it is.
pub proof fn law_code_source_path_and_range<LineCol>(s: CodeSource<LineCol>)
    ensures
        s.spec_path() is None <==> s is New,
        s is Link ==> (s.without_line_col() matches CodeSource::Link { range_start, range_end, .. }
            && range_start is None && range_end is None),
        !(s is Link) ==> s.without_line_col() == s,
{
}

} // verus!
