//! Display logic for prompt context chips: GitHub pull request links and
//! `git diff --shortstat` summaries.
use vstd::prelude::*;

use crate::text::{
    all_digits, all_space, chars_of, decimal_digits, is_space, no_space, first_word_split, first_word_split_chars, is_digit, parse_usize,
    parse_usize_chars, slice_chars, string_of, trim, trim_chars,
};

verus! {

/// Line and file counts reported by `git diff --shortstat`.
#[derive(Clone, Copy, Debug, PartialEq, Eq, Structural)]
pub struct GitLineChanges {
    pub files_changed: usize,
    pub lines_added: usize,
    pub lines_removed: usize,
}

/// The value a context chip displays.
#[derive(Clone, Debug)]
pub enum ChipValue {
    Text(String),
}

/// The kinds of context chip whose display this crate computes.
#[derive(Clone, Copy, Debug, PartialEq, Eq, Structural)]
pub enum ContextChipKind {
    GithubPullRequest,
}

/// `s` split at every occurrence of `sep` (like `str::split`): always at least one part.
pub open spec fn split_on(s: Seq<char>, sep: char) -> Seq<Seq<char>>
    decreases s.len(),
{
    if s.len() == 0 {
        seq![Seq::empty()]
    } else {
        let p = split_on(s.drop_last(), sep);
        if s.last() == sep {
            p.push(Seq::empty())
        } else {
            p.update(p.len() - 1, p.last().push(s.last()))
        }
    }
}

pub open spec fn starts_with(s: Seq<char>, prefix: Seq<char>) -> bool {
    s.len() >= prefix.len() && s.take(prefix.len() as int) == prefix
}

pub open spec fn file_keyword() -> Seq<char> {
    seq!['f', 'i', 'l', 'e']
}

pub open spec fn insertion_keyword() -> Seq<char> {
    seq!['i', 'n', 's', 'e', 'r', 't', 'i', 'o', 'n']
}

pub open spec fn deletion_keyword() -> Seq<char> {
    seq!['d', 'e', 'l', 'e', 't', 'i', 'o', 'n']
}

/// The effect of one comma-separated part such as `5 insertions(+)`: a part whose first word
/// is a number and whose second word starts with `file`, `insertion` or `deletion` sets the
/// matching count; any other part changes nothing.
pub open spec fn apply_shortstat_part(c: GitLineChanges, part: Seq<char>) -> GitLineChanges {
    match first_word_split(part) {
        None => c,
        Some((number, rest)) => match parse_usize(number) {
            None => c,
            Some(n) => match first_word_split(rest) {
                None => c,
                Some((kind, _)) => if starts_with(kind, file_keyword()) {
                    GitLineChanges { files_changed: n, ..c }
                } else if starts_with(kind, insertion_keyword()) {
                    GitLineChanges { lines_added: n, ..c }
                } else if starts_with(kind, deletion_keyword()) {
                    GitLineChanges { lines_removed: n, ..c }
                } else {
                    c
                },
            },
        },
    }
}

/// Applies the parts in order, starting from `c`.
pub open spec fn apply_shortstat_parts(c: GitLineChanges, parts: Seq<Seq<char>>) -> GitLineChanges
    decreases parts.len(),
{
    if parts.len() == 0 {
        c
    } else {
        apply_shortstat_part(apply_shortstat_parts(c, parts.drop_last()), parts.last())
    }
}

pub open spec fn no_changes() -> GitLineChanges {
    GitLineChanges { files_changed: 0, lines_added: 0, lines_removed: 0 }
}

/// What `parse_from_git_output` gives for `s`.
pub open spec fn shortstat_summary(s: Seq<char>) -> Option<GitLineChanges> {
    let t = trim(s);
    if t.len() == 0 {
        None
    } else {
        Some(apply_shortstat_parts(no_changes(), split_on(t, ',')))
    }
}

/// Index where the run of decimal digits ending at `i` starts.
pub open spec fn digit_run_start(s: Seq<char>, i: int) -> int
    decreases i,
{
    if i <= 0 || i > s.len() {
        if i <= 0 { 0 } else { s.len() as int }
    } else if is_digit(s[i - 1]) {
        digit_run_start(s, i - 1)
    } else {
        i
    }
}

pub open spec fn pull_marker() -> Seq<char> {
    seq!['/', 'p', 'u', 'l', 'l', '/']
}

pub open spec fn pr_label_prefix() -> Seq<char> {
    seq!['P', 'R', ' ', '#']
}

/// The pull request number of a URL ending in `/pull/<digits>`.
pub open spec fn pull_request_number(url: Seq<char>) -> Option<Seq<char>> {
    let k = digit_run_start(url, url.len() as int);
    if k < url.len() && k >= 6 && url.subrange(k - 6, k) == pull_marker() {
        Some(url.subrange(k, url.len() as int))
    } else {
        None
    }
}

/// What `github_pr_display_text_from_url` gives for `url`.
pub open spec fn pr_display_text(url: Seq<char>) -> Option<Seq<char>> {
    match pull_request_number(url) {
        Some(d) => Some(pr_label_prefix() + d),
        None => None,
    }
}

pub proof fn lemma_split_on_nonempty(s: Seq<char>, sep: char)
    ensures
        split_on(s, sep).len() >= 1,
    decreases s.len(),
{
    if s.len() > 0 {
        lemma_split_on_nonempty(s.drop_last(), sep);
    }
}

pub proof fn lemma_digit_run_start_bounds(s: Seq<char>, i: int)
    requires
        0 <= i <= s.len(),
    ensures
        0 <= digit_run_start(s, i) <= i,
        forall|k: int| digit_run_start(s, i) <= k < i ==> is_digit(#[trigger] s[k]),
    decreases i,
{
    if i > 0 && is_digit(s[i - 1]) {
        lemma_digit_run_start_bounds(s, i - 1);
    }
}

/// A `--shortstat` part reading `<n> <word>...` sets the count that `word` names to `n` and
/// leaves the others: `file...` the changed files, `insertion...` the added lines and
/// `deletion...` the removed lines; a part with any other word changes nothing.
pub proof fn law_shortstat_part_sets_named_count(
    c: GitLineChanges,
    n: nat,
    sp: Seq<char>,
    word: Seq<char>,
    rest: Seq<char>,
)
    requires
        n <= usize::MAX,
        all_space(sp),
        word.len() > 0,
        no_space(word),
        rest.len() == 0 || is_space(rest[0]),
    ensures
        ({
            let r = apply_shortstat_part(c, sp + decimal_digits(n) + " "@ + word + rest);
            &&& starts_with(word, "file"@) ==> r == GitLineChanges { files_changed: n as usize, ..c }
            &&& starts_with(word, "insertion"@) ==> r == GitLineChanges { lines_added: n as usize, ..c }
            &&& starts_with(word, "deletion"@) ==> r == GitLineChanges { lines_removed: n as usize, ..c }
            &&& !starts_with(word, "file"@) && !starts_with(word, "insertion"@) && !starts_with(
                word,
                "deletion"@,
            ) ==> r == c
        }),
{
    reveal_strlit("file");
    reveal_strlit("insertion");
    reveal_strlit("deletion");
    reveal_strlit(" ");
    assert(file_keyword() =~= "file"@);
    assert(insertion_keyword() =~= "insertion"@);
    assert(deletion_keyword() =~= "deletion"@);
    let d = decimal_digits(n);
    crate::text::law_decimal_text_parses_back(n);
    let tail = " "@ + word + rest;
    assert(is_space(tail[0]));
    crate::text::law_first_word_split(sp, d, tail);
    assert(sp + d + tail =~= sp + decimal_digits(n) + " "@ + word + rest);
    assert(all_space(" "@));
    crate::text::law_first_word_split(" "@, word, rest);
    if starts_with(word, "insertion"@) {
        assert(word[0] == 'i');
        assert(!starts_with(word, "file"@));
    }
    if starts_with(word, "deletion"@) {
        assert(word[0] == 'd');
        assert(!starts_with(word, "file"@));
        assert(!starts_with(word, "insertion"@));
    }
}

/// The digit run ending at `i` starts at `j` when every character from `j` to `i` is a
/// digit and the one before `j` (if any) is not.
proof fn lemma_digit_run_start_at(s: Seq<char>, j: int, i: int)
    requires
        0 <= j <= i <= s.len(),
        forall|k: int| j <= k < i ==> is_digit(#[trigger] s[k]),
        j == 0 || !is_digit(s[j - 1]),
    ensures
        digit_run_start(s, i) == j,
    decreases i - j,
{
    if i > j {
        lemma_digit_run_start_at(s, j, i - 1);
    }
}

/// A URL that ends in `/pull/` and a run of digits is labelled `PR #` followed by all of
/// those digits, whatever comes before; and a label is only ever `PR #` followed by the
/// URL's whole trailing digit run, which comes right after `/pull/`.
pub proof fn law_pr_label_is_full_number(url: Seq<char>, head: Seq<char>, digits: Seq<char>)
    ensures
        pr_label_prefix() == "PR #"@,
        pull_marker() == "/pull/"@,
        url == head + pull_marker() + digits && digits.len() > 0 && all_digits(digits)
            ==> pr_display_text(url) == Some(pr_label_prefix() + digits),
        pr_display_text(url) matches Some(label) ==> {
            let n = (label.len() - 4) as int;
            &&& label.len() > 4
            &&& label.take(4) == pr_label_prefix()
            &&& all_digits(label.skip(4))
            &&& url.len() >= n + 6
            &&& url.skip(url.len() - n) == label.skip(4)
            &&& url.subrange(url.len() - n - 6, url.len() - n) == pull_marker()
        },
{
    reveal_strlit("PR #");
    reveal_strlit("/pull/");
    assert(pr_label_prefix() =~= "PR #"@);
    assert(pull_marker() =~= "/pull/"@);
    if url == head + pull_marker() + digits && digits.len() > 0 && all_digits(digits) {
        let j: int = head.len() as int + 6;
        assert forall|k: int| j <= k < url.len() implies is_digit(#[trigger] url[k]) by {
            assert(url[k] == digits[k - j]);
        }
        assert(url[j - 1] == '/');
        lemma_digit_run_start_at(url, j, url.len() as int);
        assert(url.subrange(j - 6, j) =~= pull_marker());
        assert(url.subrange(j, url.len() as int) =~= digits);
    }
    if pr_display_text(url) is Some {
        let label = pr_display_text(url)->0;
        lemma_digit_run_start_bounds(url, url.len() as int);
        let k = digit_run_start(url, url.len() as int);
        let d = url.subrange(k, url.len() as int);
        assert(label =~= pr_label_prefix() + d);
        assert(label.take(4) =~= pr_label_prefix());
        assert(label.skip(4) =~= d);
        assert(url.skip(k) =~= d);
    }
}

/// Whether `v` starts with `prefix`.
fn starts_with_chars(v: &Vec<char>, prefix: &[char]) -> (b: bool)
    ensures
        b == starts_with(v@, prefix@),
{
    if v.len() < prefix.len() {
        return false;
    }
    let mut i: usize = 0;
    while i < prefix.len()
        invariant
            i <= prefix.len() <= v.len(),
            forall|k: int| 0 <= k < i ==> v@[k] == prefix@[k],
        decreases prefix.len() - i,
    {
        if v[i] != prefix[i] {
            assert(v@.take(prefix@.len() as int)[i as int] != prefix@[i as int]);
            return false;
        }
        i += 1;
    }
    assert(v@.take(prefix@.len() as int) =~= prefix@);
    true
}

fn apply_part(c: GitLineChanges, part: &Vec<char>) -> (r: GitLineChanges)
    ensures
        r == apply_shortstat_part(c, part@),
{
    match first_word_split_chars(part) {
        None => c,
        Some((number, rest)) => match parse_usize_chars(&number) {
            None => c,
            Some(n) => match first_word_split_chars(&rest) {
                None => c,
                Some((kind, _)) => {
                    let file = ['f', 'i', 'l', 'e'];
                    let insertion = ['i', 'n', 's', 'e', 'r', 't', 'i', 'o', 'n'];
                    let deletion = ['d', 'e', 'l', 'e', 't', 'i', 'o', 'n'];
                    assert(file@ =~= file_keyword());
                    assert(insertion@ =~= insertion_keyword());
                    assert(deletion@ =~= deletion_keyword());
                    if starts_with_chars(&kind, &file) {
                        GitLineChanges { files_changed: n, ..c }
                    } else if starts_with_chars(&kind, &insertion) {
                        GitLineChanges { lines_added: n, ..c }
                    } else if starts_with_chars(&kind, &deletion) {
                        GitLineChanges { lines_removed: n, ..c }
                    } else {
                        c
                    }
                },
            },
        },
    }
}

impl GitLineChanges {
    /// Parses the summary line of `git diff --shortstat`, such as
    /// ` 3 files changed, 5 insertions(+), 2 deletions(-)`.
    ///
    /// Returns `None` for blank input. Counts that do not appear stay 0.
    pub fn parse_from_git_output(output: &str) -> (r: Option<GitLineChanges>)
        ensures
            r == shortstat_summary(output@),
    {
        let all = chars_of(output);
        let t = trim_chars(&all);
        if t.len() == 0 {
            return None;
        }
        let mut state = GitLineChanges { files_changed: 0, lines_added: 0, lines_removed: 0 };
        let mut current: Vec<char> = Vec::new();
        let mut i: usize = 0;
        proof {
            assert(t@.take(0) =~= Seq::<char>::empty());
            assert(split_on(Seq::<char>::empty(), ',').drop_last() =~= Seq::<Seq<char>>::empty());
        }
        while i < t.len()
            invariant
                i <= t.len(),
                split_on(t@.take(i as int), ',').len() >= 1,
                state == apply_shortstat_parts(
                    no_changes(),
                    split_on(t@.take(i as int), ',').drop_last(),
                ),
                current@ == split_on(t@.take(i as int), ',').last(),
            decreases t.len() - i,
        {
            let c = t[i];
            let ghost pre = t@.take(i as int);
            let ghost next = t@.take(i + 1);
            let ghost sp = split_on(pre, ',');
            assert(next.drop_last() =~= pre);
            assert(next.last() == c);
            proof {
                lemma_split_on_nonempty(next, ',');
            }
            if c == ',' {
                state = apply_part(state, &current);
                current = Vec::new();
                assert(split_on(next, ',') == sp.push(Seq::empty()));
                assert(split_on(next, ',').drop_last() =~= sp);
                assert(sp =~= sp.drop_last().push(sp.last()));
            } else {
                current.push(c);
                assert(split_on(next, ',') == sp.update(sp.len() - 1, sp.last().push(c)));
                assert(split_on(next, ',').drop_last() =~= sp.drop_last());
            }
            i += 1;
        }
        let ghost sp = split_on(t@, ',');
        assert(t@.take(t@.len() as int) =~= t@);
        assert(sp =~= sp.drop_last().push(sp.last()));
        Some(apply_part(state, &current))
    }
}

/// The label for a GitHub pull request URL: `PR #<number>` when `url` ends in
/// `/pull/<number>`.
pub fn github_pr_display_text_from_url(url: &str) -> (r: Option<String>)
    ensures
        match r {
            Some(s) => pr_display_text(url@) == Some(s@),
            None => pr_display_text(url@) is None,
        },
{
    let v = chars_of(url);
    let mut k = v.len();
    while k > 0 && '0' <= v[k - 1] && v[k - 1] <= '9'
        invariant
            k <= v.len(),
            digit_run_start(v@, v@.len() as int) == digit_run_start(v@, k as int),
        decreases k,
    {
        k -= 1;
    }
    proof {
        lemma_digit_run_start_bounds(v@, v@.len() as int);
    }
    if k == v.len() || k < 6 {
        return None;
    }
    let marker = ['/', 'p', 'u', 'l', 'l', '/'];
    let mut j: usize = 0;
    assert(marker@ =~= pull_marker());
    while j < 6
        invariant
            6 <= k < v.len(),
            k == digit_run_start(v@, v@.len() as int),
            marker@ == pull_marker(),
            v@ == url@,
            j <= 6,
            forall|m: int| 0 <= m < j ==> v@[k - 6 + m] == marker@[m],
        decreases 6 - j,
    {
        if v[k - 6 + j] != marker[j] {
            assert(v@.subrange(k - 6, k as int)[j as int] != pull_marker()[j as int]);
            return None;
        }
        j += 1;
    }
    assert(v@.subrange(k - 6, k as int) =~= pull_marker());
    let mut label: Vec<char> = vec!['P', 'R', ' ', '#'];
    let digits = slice_chars(&v, k, v.len());
    let mut m: usize = 0;
    let ghost start = label@;
    assert(start =~= pr_label_prefix());
    while m < digits.len()
        invariant
            m <= digits.len(),
            label@ == pr_label_prefix() + digits@.take(m as int),
        decreases digits.len() - m,
    {
        label.push(digits[m]);
        assert(pr_label_prefix() + digits@.take(m + 1) =~= (pr_label_prefix() + digits@.take(
            m as int,
        )).push(digits@[m as int]));
        m += 1;
    }
    assert(digits@.take(digits@.len() as int) =~= digits@);
    Some(string_of(label.as_slice()))
}

impl ContextChipKind {
    /// The text shown for `value` on a chip of this kind: a pull request URL is shortened
    /// to `PR #<number>`, anything else is shown as it is.
    pub fn display_value(&self, value: &ChipValue) -> (r: String)
        ensures
            match (*self, value) {
                (ContextChipKind::GithubPullRequest, ChipValue::Text(s)) => match pr_display_text(
                    s@,
                ) {
                    Some(t) => r@ == t,
                    None => r@ == s@,
                },
            },
    {
        match (self, value) {
            (ContextChipKind::GithubPullRequest, ChipValue::Text(s)) => {
                match github_pr_display_text_from_url(s.as_str()) {
                    Some(t) => t,
                    None => s.clone(),
                }
            },
        }
    }
}

} // verus!
