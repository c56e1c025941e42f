//! The `warp://linear/...` deep link.
use vstd::prelude::*;

use url::Url;

use crate::text::chars_of;

verus! {

#[verifier::external_type_specification]
#[verifier::external_body]
pub struct ExUrl(Url);

/// Whether every character of `s` is ASCII.
pub open spec fn is_ascii_text(s: Seq<char>) -> bool {
    forall|i: int| 0 <= i < s.len() ==> (#[trigger] s[i] as u32) < 0x80
}

/// The path of a URL, as `url::Url::path` gives it.
pub uninterp spec fn url_path_of(url: Url) -> Seq<char>;

/// Calls `url::Url::path`: the URL's path (named `url_path_of`), which its documentation
/// describes as a percent-encoded ASCII string.
#[verifier::external_body]
fn url_path(url: &Url) -> (p: String)
    ensures
        p@ == url_path_of(*url),
        is_ascii_text(p@),
{
    url.path().to_string()
}

/// Actions of the `warp://linear/...` deep link.
#[derive(Debug, PartialEq, Eq, Structural)]
pub enum LinearAction {
    /// Open a new agent view tab to work on a Linear issue.
    WorkOnIssue,
}

/// A `linear` deep link with a path that names no action.
#[derive(Debug, Clone)]
pub struct LinearParseError {
    pub path: String,
}

pub open spec fn work_path() -> Seq<char> {
    seq!['/', 'w', 'o', 'r', 'k']
}

impl LinearParseError {
    /// The message reported for the error.
    pub fn message(&self) -> (m: String)
        ensures
            m@ == "Received \"linear\" intent with unexpected path: "@ + self.path@,
    {
        let mut m = "Received \"linear\" intent with unexpected path: ".to_owned();
        m.append(self.path.as_str());
        m
    }
}

impl LinearAction {
    /// The action for a deep-link path: `/work` opens an agent view on an issue; any other
    /// path is an error carrying the path.
    pub fn parse_path(path: &str) -> (r: Result<Self, LinearParseError>)
        ensures
            path@ == work_path() <==> r is Ok,
            r matches Ok(a) ==> a == LinearAction::WorkOnIssue,
            r matches Err(e) ==> e.path@ == path@,
    {
        let v = chars_of(path);
        let work = ['/', 'w', 'o', 'r', 'k'];
        assert(work@ =~= work_path());
        let mut matches = v.len() == 5;
        let mut i: usize = 0;
        while matches && i < 5
            invariant
                i <= 5,
                matches ==> v@.len() == 5,
                matches ==> forall|k: int| 0 <= k < i ==> v@[k] == work@[k],
                !matches ==> v@ != work_path(),
                work@ == work_path(),
            decreases 5 - i,
        {
            if v[i] != work[i] {
                assert(v@[i as int] != work_path()[i as int]);
                matches = false;
            }
            i += 1;
        }
        if matches {
            assert(v@ =~= work_path());
            Ok(LinearAction::WorkOnIssue)
        } else {
            Err(LinearParseError { path: path.to_owned() })
        }
    }

    /// The action a `warp://linear/...` URL asks for, read from its path: `/work` opens an
    /// agent view on an issue; any other path is an error carrying the path.
    pub fn parse(url: &Url) -> (r: Result<Self, LinearParseError>)
        ensures
            r is Ok <==> url_path_of(*url) == work_path(),
            r matches Ok(a) ==> a == LinearAction::WorkOnIssue,
            r matches Err(e) ==> e.path@ == url_path_of(*url) && is_ascii_text(e.path@),
    {
        let path = url_path(url);
        Self::parse_path(path.as_str())
    }
}

/// Links to Warp's web app.
#[derive(PartialEq, Debug, Structural)]
pub enum WarpWebLink {
    Session,
}

/// The item a Warp web link points to. No link kind is recognized yet.
pub fn get_item_data_from_warp_link(url: &Url) -> (r: Option<WarpWebLink>)
    ensures
        r is None,
{
    let _ = url;
    None
}

/// The one path the `linear` deep link acts on is `/work`.
pub proof fn law_linear_work_path()
    ensures
        work_path() == "/work"@,
{
    reveal_strlit("/work");
    assert(work_path() =~= "/work"@);
}

} // verus!
