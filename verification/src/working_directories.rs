//! Tracking of the working directories and repositories of each pane group,
//! kept in most-recently-added order and without repeats.
use vstd::prelude::*;

use indexmap::IndexSet;
use std::collections::HashMap;

verus! {

#[verifier::external_type_specification]
#[verifier::external_body]
#[verifier::reject_recursive_types(T)]
#[verifier::reject_recursive_types(S)]
pub struct ExIndexSet<T, S>(IndexSet<T, S>);

/// The items of an `IndexSet`, in insertion order.
pub uninterp spec fn index_set_items(s: IndexSet<String>) -> Seq<Seq<char>>;

/// The texts of a list of strings.
pub open spec fn texts(v: Seq<String>) -> Seq<Seq<char>> {
    v.map_values(|s: String| s@)
}

/// Calls `IndexSet::new`: the set starts empty.
#[verifier::external_body]
fn index_set_new() -> (s: IndexSet<String>)
    ensures
        index_set_items(s) == Seq::<Seq<char>>::empty(),
{
    IndexSet::new()
}

/// Calls `IndexSet::insert`. Its documentation and source: an item already in the set is left
/// where it is and `false` is returned; otherwise the item goes last and `true` is returned.
#[verifier::external_body]
fn index_set_insert(s: &mut IndexSet<String>, item: String) -> (added: bool)
    ensures
        added == !index_set_items(*old(s)).contains(item@),
        index_set_items(*final(s)) == if added {
            index_set_items(*old(s)).push(item@)
        } else {
            index_set_items(*old(s))
        },
{
    s.insert(item)
}

/// Calls `IndexSet::retain` with a test that keeps the items listed in `keep`. Its
/// documentation and source: the kept items stay in their order.
#[verifier::external_body]
fn index_set_retain_listed(s: &mut IndexSet<String>, keep: &Vec<String>)
    ensures
        index_set_items(*final(s)) == keep_listed(index_set_items(*old(s)), texts(keep@)),
{
    s.retain(|item| is_listed(keep, item))
}

/// Calls `IndexSet::iter` and copies the items out, in order.
#[verifier::external_body]
fn index_set_items_vec(s: &IndexSet<String>) -> (v: Vec<String>)
    ensures
        texts(v@) == index_set_items(*s),
{
    s.iter().cloned().collect()
}

/// The items of `s` that `list` holds, in order.
pub open spec fn keep_listed(s: Seq<Seq<char>>, list: Seq<Seq<char>>) -> Seq<Seq<char>>
    decreases s.len(),
{
    if s.len() == 0 {
        s
    } else if list.contains(s.last()) {
        keep_listed(s.drop_last(), list).push(s.last())
    } else {
        keep_listed(s.drop_last(), list)
    }
}

/// `s` with the items of `items` added in order, skipping those already there.
pub open spec fn insert_all(s: Seq<Seq<char>>, items: Seq<Seq<char>>) -> Seq<Seq<char>>
    decreases items.len(),
{
    if items.len() == 0 {
        s
    } else {
        let before = insert_all(s, items.drop_last());
        if before.contains(items.last()) {
            before
        } else {
            before.push(items.last())
        }
    }
}

/// The ordered set `s` made to hold exactly `items`: items that stay keep their place, new
/// ones are added after them in the order given.
pub open spec fn updated_set(s: Seq<Seq<char>>, items: Seq<Seq<char>>) -> Seq<Seq<char>> {
    insert_all(keep_listed(s, items), items)
}

proof fn lemma_keep_listed(s: Seq<Seq<char>>, list: Seq<Seq<char>>, x: Seq<char>)
    ensures
        keep_listed(s, list).contains(x) <==> (s.contains(x) && list.contains(x)),
        s.no_duplicates() ==> keep_listed(s, list).no_duplicates(),
    decreases s.len(),
{
    if s.len() > 0 {
        let t = s.drop_last();
        let k = keep_listed(t, list);
        lemma_keep_listed(t, list, x);
        lemma_keep_listed(t, list, s.last());
        if s.contains(x) {
            let j = choose|j: int| 0 <= j < s.len() && s[j] == x;
            if j < s.len() - 1 {
                assert(t[j] == x);
            }
        }
        if t.contains(x) {
            let j = choose|j: int| 0 <= j < t.len() && t[j] == x;
            assert(s[j] == x);
        }
        if list.contains(s.last()) {
            let r = k.push(s.last());
            assert(r[k.len() as int] == s.last());
            if r.contains(x) && x != s.last() {
                let j = choose|j: int| 0 <= j < r.len() && r[j] == x;
                assert(k[j] == x);
            }
            if k.contains(x) {
                let j = choose|j: int| 0 <= j < k.len() && k[j] == x;
                assert(r[j] == x);
            }
            if s.no_duplicates() {
                assert(t.no_duplicates()) by {
                    assert forall|i: int, j: int| 0 <= i < t.len() && 0 <= j < t.len() && i != j implies t[i] != t[j] by {
                        assert(t[i] == s[i] && t[j] == s[j]);
                    }
                }
                assert(!t.contains(s.last())) by {
                    if t.contains(s.last()) {
                        let j = choose|j: int| 0 <= j < t.len() && t[j] == s.last();
                        assert(s[j] == s[s.len() - 1]);
                    }
                }
                assert forall|i: int, j: int| 0 <= i < r.len() && 0 <= j < r.len() && i != j implies r[i] != r[j] by {
                    if i == k.len() {
                        assert(k.contains(k[j]));
                    } else if j == k.len() {
                        assert(k.contains(k[i]));
                    }
                }
            }
        } else {
            if s.no_duplicates() {
                assert(t.no_duplicates()) by {
                    assert forall|i: int, j: int| 0 <= i < t.len() && 0 <= j < t.len() && i != j implies t[i] != t[j] by {
                        assert(t[i] == s[i] && t[j] == s[j]);
                    }
                }
            }
        }
    }
}

proof fn lemma_insert_all(s: Seq<Seq<char>>, items: Seq<Seq<char>>, x: Seq<char>)
    ensures
        insert_all(s, items).contains(x) <==> (s.contains(x) || items.contains(x)),
        s.no_duplicates() ==> insert_all(s, items).no_duplicates(),
    decreases items.len(),
{
    if items.len() > 0 {
        let before = insert_all(s, items.drop_last());
        lemma_insert_all(s, items.drop_last(), x);
        let y = items.last();
        if items.contains(x) {
            let j = choose|j: int| 0 <= j < items.len() && items[j] == x;
            if j < items.len() - 1 {
                assert(items.drop_last()[j] == x);
            }
        }
        if items.drop_last().contains(x) {
            let j = choose|j: int| 0 <= j < items.len() - 1 && items.drop_last()[j] == x;
            assert(items[j] == x);
        }
        if !before.contains(y) {
            let r = before.push(y);
            assert(r[before.len() as int] == y);
            if r.contains(x) && x != y {
                let j = choose|j: int| 0 <= j < r.len() && r[j] == x;
                assert(before[j] == x);
            }
            if before.contains(x) {
                let j = choose|j: int| 0 <= j < before.len() && before[j] == x;
                assert(r[j] == x);
            }
            if s.no_duplicates() {
                assert forall|i: int, j: int| 0 <= i < r.len() && 0 <= j < r.len() && i != j implies r[i] != r[j] by {
                    if i == before.len() {
                        assert(before.contains(before[j]));
                    } else if j == before.len() {
                        assert(before.contains(before[i]));
                    }
                }
            }
        }
    }
}

/// After an update the set holds exactly the new items, each once (when it held no repeats
/// before).
pub proof fn law_updated_set_holds_new_items(s: Seq<Seq<char>>, items: Seq<Seq<char>>, x: Seq<char>)
    ensures
        updated_set(s, items).contains(x) <==> items.contains(x),
        s.no_duplicates() ==> updated_set(s, items).no_duplicates(),
{
    lemma_keep_listed(s, items, x);
    lemma_insert_all(keep_listed(s, items), items, x);
}

proof fn lemma_keep_listed_all(s: Seq<Seq<char>>, list: Seq<Seq<char>>)
    requires
        forall|i: int| 0 <= i < s.len() ==> list.contains(#[trigger] s[i]),
    ensures
        keep_listed(s, list) == s,
    decreases s.len(),
{
    if s.len() > 0 {
        assert forall|i: int| 0 <= i < s.drop_last().len() implies list.contains(
            #[trigger] s.drop_last()[i],
        ) by {
            assert(s.drop_last()[i] == s[i]);
        }
        lemma_keep_listed_all(s.drop_last(), list);
        assert(list.contains(s[s.len() - 1]));
        assert(s.drop_last().push(s.last()) =~= s);
    }
}

proof fn lemma_insert_all_present(s: Seq<Seq<char>>, items: Seq<Seq<char>>)
    requires
        forall|i: int| 0 <= i < items.len() ==> s.contains(#[trigger] items[i]),
    ensures
        insert_all(s, items) == s,
    decreases items.len(),
{
    if items.len() > 0 {
        assert forall|i: int| 0 <= i < items.drop_last().len() implies s.contains(
            #[trigger] items.drop_last()[i],
        ) by {
            assert(items.drop_last()[i] == items[i]);
        }
        lemma_insert_all_present(s, items.drop_last());
        assert(s.contains(items[items.len() - 1]));
    }
}

/// Updating a set a second time with the same items changes nothing.
pub proof fn law_update_index_set_idempotent(s: Seq<Seq<char>>, items: Seq<Seq<char>>)
    ensures
        updated_set(updated_set(s, items), items) == updated_set(s, items),
{
    let u = updated_set(s, items);
    assert forall|i: int| 0 <= i < u.len() implies items.contains(#[trigger] u[i]) by {
        law_updated_set_holds_new_items(s, items, u[i]);
    }
    lemma_keep_listed_all(u, items);
    assert forall|i: int| 0 <= i < items.len() implies u.contains(#[trigger] items[i]) by {
        law_updated_set_holds_new_items(s, items, items[i]);
    }
    lemma_insert_all_present(u, items);
}

/// Whether `item` is one of `list`.
pub fn is_listed(list: &Vec<String>, item: &String) -> (b: bool)
    ensures
        b == texts(list@).contains(item@),
{
    let mut i: usize = 0;
    while i < list.len()
        invariant
            i <= list.len(),
            forall|k: int| 0 <= k < i ==> list@[k]@ != item@,
        decreases list.len() - i,
    {
        if list[i] == *item {
            assert(texts(list@)[i as int] == item@);
            return true;
        }
        i += 1;
    }
    assert forall|k: int| 0 <= k < texts(list@).len() implies texts(list@)[k] != item@ by {
        assert(texts(list@)[k] == list@[k]@);
    }
    false
}

/// Makes `index_set` hold exactly `new_items`: items no longer listed are dropped, the others
/// keep their order, and new items are added after them in the order given.
pub fn update_index_set(index_set: &mut IndexSet<String>, new_items: Vec<String>)
    ensures
        index_set_items(*final(index_set)) == updated_set(
            index_set_items(*old(index_set)),
            texts(new_items@),
        ),
{
    index_set_retain_listed(index_set, &new_items);
    let ghost kept = index_set_items(*index_set);
    let ghost all = texts(new_items@);
    let mut i: usize = 0;
    while i < new_items.len()
        invariant
            i <= new_items.len(),
            all == texts(new_items@),
            index_set_items(*index_set) == insert_all(kept, all.take(i as int)),
        decreases new_items.len() - i,
    {
        assert(all.take(i + 1).drop_last() =~= all.take(i as int));
        assert(all.take(i + 1).last() == new_items@[i as int]@);
        index_set_insert(index_set, new_items[i].clone());
        i += 1;
    }
    assert(all.take(new_items.len() as int) =~= all);
}

/// A root directory of a pane group and a terminal showing it, if any.
#[derive(Clone, Debug, PartialEq, Eq)]
pub struct WorkingDirectory {
    pub path: String,
    pub terminal_id: Option<usize>,
}

/// Events emitted when a pane group's directories, repositories or focused repository change.
#[derive(Clone, Debug)]
pub enum WorkingDirectoriesEvent {
    /// All roots of the pane group, most recently added first.
    DirectoriesChanged { pane_group_id: usize, directories: Vec<WorkingDirectory> },
    /// All repository roots of the pane group, most recently added first.
    RepositoriesChanged { pane_group_id: usize, repositories: Vec<String> },
    /// The repository of the focused terminal, with the terminal of each root.
    FocusedRepoChanged {
        pane_group_id: usize,
        repository_terminal_map: Vec<(String, usize)>,
        focused_repo: Option<String>,
    },
}

/// A terminal's working directory resolved to its root: the repository root containing the
/// directory, or the directory itself; `None` when the directory could not be normalized.
#[derive(Clone, Debug)]
pub struct TerminalRoot {
    pub terminal_id: usize,
    pub root: Option<String>,
}

/// A file opened in a pane: `resolved` is the repository root containing it or else its
/// parent directory (`None` when it has neither); `root` is `resolved` normalized and resolved
/// to its root like a working directory.
#[derive(Clone, Debug)]
pub struct LocalPathRoot {
    pub view_id: usize,
    pub resolved: Option<String>,
    pub root: Option<String>,
}

/// The repository root detected for a path, if any.
#[derive(Clone, Debug)]
pub struct RepoRootOf {
    pub path: String,
    pub repo_root: Option<String>,
}

/// What is recorded for one pane group. Each part is `None` while the model holds no entry
/// for the pane group.
pub struct PaneGroupDirectories {
    /// Display roots (repository roots or directories), oldest first.
    pub roots: Option<IndexSet<String>>,
    /// Repository roots, oldest first.
    pub repositories: Option<IndexSet<String>>,
    /// For each root, a terminal showing it.
    pub root_to_terminal: Option<Vec<(String, usize)>>,
    /// The repository of the focused terminal, once computed.
    pub focused_repo: Option<Option<String>>,
}

/// An association list of texts to terminal ids.
pub open spec fn assoc_view(m: Seq<(String, usize)>) -> Seq<(Seq<char>, usize)> {
    m.map_values(|e: (String, usize)| (e.0@, e.1))
}

pub open spec fn assoc_keys(m: Seq<(Seq<char>, usize)>) -> Seq<Seq<char>> {
    m.map_values(|e: (Seq<char>, usize)| e.0)
}

/// The value of the last entry of `m` for `k`.
pub open spec fn assoc_get(m: Seq<(Seq<char>, usize)>, k: Seq<char>) -> Option<usize>
    decreases m.len(),
{
    if m.len() == 0 {
        None
    } else if m.last().0 == k {
        Some(m.last().1)
    } else {
        assoc_get(m.drop_last(), k)
    }
}

/// `m` with `k` mapped to `v`: an entry for `k` is overwritten in place, else one is added.
pub open spec fn assoc_insert(m: Seq<(Seq<char>, usize)>, k: Seq<char>, v: usize) -> Seq<
    (Seq<char>, usize),
> {
    if assoc_keys(m).contains(k) {
        m.map_values(|e: (Seq<char>, usize)| if e.0 == k { (k, v) } else { e })
    } else {
        m.push((k, v))
    }
}

/// The roots of the terminals' working directories, in order.
pub open spec fn terminal_roots(t: Seq<TerminalRoot>) -> Seq<Seq<char>>
    decreases t.len(),
{
    if t.len() == 0 {
        Seq::empty()
    } else {
        let before = terminal_roots(t.drop_last());
        match t.last().root {
            Some(r) => before.push(r@),
            None => before,
        }
    }
}

/// Walks the opened files in order; a file whose resolved directory was not seen yet (among
/// the terminal roots and earlier files) contributes its root. Gives the roots contributed and
/// the directories seen.
pub open spec fn local_roots(l: Seq<LocalPathRoot>, seen: Seq<Seq<char>>) -> (
    Seq<Seq<char>>,
    Seq<Seq<char>>,
)
    decreases l.len(),
{
    if l.len() == 0 {
        (Seq::empty(), seen)
    } else {
        let (roots, seen1) = local_roots(l.drop_last(), seen);
        let x = l.last();
        match x.resolved {
            None => (roots, seen1),
            Some(r) => if seen1.contains(r@) {
                (roots, seen1)
            } else {
                match x.root {
                    Some(root) => (roots.push(root@), seen1.push(r@)),
                    None => (roots, seen1.push(r@)),
                }
            },
        }
    }
}

/// The new roots of a pane group: the terminals' roots, then the roots of the opened files
/// not already covered.
pub open spec fn new_root_paths(t: Seq<TerminalRoot>, l: Seq<LocalPathRoot>) -> Seq<Seq<char>> {
    terminal_roots(t) + local_roots(l, terminal_roots(t)).0
}

/// The repository root the table gives for `p` (its last entry for `p`), if any.
pub open spec fn repo_root_in(table: Seq<RepoRootOf>, p: Seq<char>) -> Option<Seq<char>>
    decreases table.len(),
{
    if table.len() == 0 {
        None
    } else if table.last().path@ == p {
        match table.last().repo_root {
            Some(r) => Some(r@),
            None => None,
        }
    } else {
        repo_root_in(table.drop_last(), p)
    }
}

/// The repository roots of the directories `dirs`, in order, skipping those in no repository.
pub open spec fn repo_roots_of(table: Seq<RepoRootOf>, dirs: Seq<Seq<char>>) -> Seq<Seq<char>>
    decreases dirs.len(),
{
    if dirs.len() == 0 {
        Seq::empty()
    } else {
        let before = repo_roots_of(table, dirs.drop_last());
        match repo_root_in(table, dirs.last()) {
            Some(r) => before.push(r),
            None => before,
        }
    }
}

/// Each terminal's root mapped to the terminal; a later terminal with the same root wins.
pub open spec fn root_terminals(t: Seq<TerminalRoot>) -> Seq<(Seq<char>, usize)>
    decreases t.len(),
{
    if t.len() == 0 {
        Seq::empty()
    } else {
        let before = root_terminals(t.drop_last());
        match t.last().root {
            Some(r) => assoc_insert(before, r@, t.last().terminal_id),
            None => before,
        }
    }
}

/// The entries of `m` whose key is in `keys`, in order.
pub open spec fn assoc_keep(m: Seq<(Seq<char>, usize)>, keys: Seq<Seq<char>>) -> Seq<
    (Seq<char>, usize),
>
    decreases m.len(),
{
    if m.len() == 0 {
        m
    } else if keys.contains(m.last().0) {
        assoc_keep(m.drop_last(), keys).push(m.last())
    } else {
        assoc_keep(m.drop_last(), keys)
    }
}

/// For the entries of `m` shown by the focused terminal and lying in a repository: the
/// repository roots to map to the focused terminal, and the last such root.
pub open spec fn focused_repos(
    m: Seq<(Seq<char>, usize)>,
    table: Seq<RepoRootOf>,
    focused: usize,
) -> (Seq<Seq<char>>, Option<Seq<char>>)
    decreases m.len(),
{
    if m.len() == 0 {
        (Seq::empty(), None)
    } else {
        let (repos, last) = focused_repos(m.drop_last(), table, focused);
        if m.last().1 == focused {
            match repo_root_in(table, m.last().0) {
                Some(r) => (repos.push(r), Some(r)),
                None => (repos, last),
            }
        } else {
            (repos, last)
        }
    }
}

/// `m` with each of `keys` mapped to `v`, in order.
pub open spec fn assoc_insert_all(m: Seq<(Seq<char>, usize)>, keys: Seq<Seq<char>>, v: usize) -> Seq<
    (Seq<char>, usize),
>
    decreases keys.len(),
{
    if keys.len() == 0 {
        m
    } else {
        assoc_insert(assoc_insert_all(m, keys.drop_last(), v), keys.last(), v)
    }
}

/// The root-to-terminal map after a refresh, and the focused repository.
pub open spec fn refreshed_terminal_map(
    t: Seq<TerminalRoot>,
    l: Seq<LocalPathRoot>,
    dirs: Seq<Seq<char>>,
    table: Seq<RepoRootOf>,
    focused_terminal: Option<usize>,
) -> (Seq<(Seq<char>, usize)>, Option<Seq<char>>) {
    let roots = new_root_paths(t, l);
    let repos = repo_roots_of(table, dirs);
    let m = assoc_keep(root_terminals(t), repos + roots);
    match focused_terminal {
        None => (m, None),
        Some(f) => {
            let (to_add, focus) = focused_repos(m, table, f);
            (assoc_insert_all(m, to_add, f), focus)
        },
    }
}

/// Each directory of `dirs` with the terminal the map gives for it.
pub open spec fn directories_with_terminals(
    dirs: Seq<Seq<char>>,
    m: Seq<(Seq<char>, usize)>,
) -> Seq<(Seq<char>, Option<usize>)> {
    dirs.map_values(|d: Seq<char>| (d, assoc_get(m, d)))
}

proof fn lemma_assoc_keys_contains(m: Seq<(Seq<char>, usize)>, k: Seq<char>)
    ensures
        assoc_keys(m).contains(k) <==> assoc_get(m, k) is Some,
    decreases m.len(),
{
    if m.len() > 0 {
        let p = m.drop_last();
        lemma_assoc_keys_contains(p, k);
        assert(assoc_keys(m) =~= assoc_keys(p).push(m.last().0));
        assert(assoc_keys(m)[m.len() - 1] == m.last().0);
        if assoc_keys(p).contains(k) {
            let i = choose|i: int| 0 <= i < assoc_keys(p).len() && assoc_keys(p)[i] == k;
            assert(assoc_keys(m)[i] == k);
        }
        if assoc_keys(m).contains(k) && m.last().0 != k {
            let i = choose|i: int| 0 <= i < assoc_keys(m).len() && assoc_keys(m)[i] == k;
            assert(i < assoc_keys(p).len());
            assert(assoc_keys(p)[i] == k);
        }
    } else {
        assert(assoc_keys(m) =~= Seq::<Seq<char>>::empty());
    }
}

proof fn lemma_assoc_update(
    m: Seq<(Seq<char>, usize)>,
    u: Seq<(Seq<char>, usize)>,
    k: Seq<char>,
    v: usize,
    j: Seq<char>,
)
    requires
        u.len() == m.len(),
        forall|i: int| 0 <= i < m.len() ==> #[trigger] u[i] == if m[i].0 == k {
            (k, v)
        } else {
            m[i]
        },
    ensures
        assoc_get(u, j) == if j == k && assoc_get(m, k) is Some {
            Some(v)
        } else {
            assoc_get(m, j)
        },
    decreases m.len(),
{
    if m.len() > 0 {
        let p = m.drop_last();
        let q = u.drop_last();
        assert forall|i: int| 0 <= i < p.len() implies #[trigger] q[i] == if p[i].0 == k {
            (k, v)
        } else {
            p[i]
        } by {
            assert(q[i] == u[i]);
            assert(p[i] == m[i]);
        }
        lemma_assoc_update(p, q, k, v, j);
        assert(u.last() == u[u.len() - 1]);
        assert(m.last() == m[m.len() - 1]);
    }
}

/// The root-to-terminal map behaves as a map: after mapping `k` to `v`, `k` gives `v` and
/// every other key gives what it gave before.
pub proof fn law_assoc_insert_get(m: Seq<(Seq<char>, usize)>, k: Seq<char>, v: usize, j: Seq<char>)
    ensures
        assoc_get(assoc_insert(m, k, v), k) == Some(v),
        j != k ==> assoc_get(assoc_insert(m, k, v), j) == assoc_get(m, j),
{
    lemma_assoc_keys_contains(m, k);
    let u = assoc_insert(m, k, v);
    if assoc_keys(m).contains(k) {
        assert forall|i: int| 0 <= i < m.len() implies #[trigger] u[i] == if m[i].0 == k {
            (k, v)
        } else {
            m[i]
        } by {}
        lemma_assoc_update(m, u, k, v, k);
        lemma_assoc_update(m, u, k, v, j);
    } else {
        assert(u.drop_last() == m);
    }
}

/// Whether terminal `x` has root `r`.
pub open spec fn has_root(x: TerminalRoot, r: Seq<char>) -> bool {
    x.root matches Some(y) && y@ == r
}

/// Whether some terminal of `t` has root `r`.
pub open spec fn some_has_root(t: Seq<TerminalRoot>, r: Seq<char>) -> bool {
    exists|i: int| 0 <= i < t.len() && has_root(#[trigger] t[i], r)
}

/// Whether `i` is the last terminal of `t` with root `r`.
pub open spec fn is_last_with_root(t: Seq<TerminalRoot>, r: Seq<char>, i: int) -> bool {
    &&& 0 <= i < t.len()
    &&& has_root(t[i], r)
    &&& forall|j: int| i < j < t.len() ==> !has_root(#[trigger] t[j], r)
}

/// Each root maps to the last terminal that has it as its root; a root no terminal has maps
/// to nothing.
pub proof fn law_root_terminals_last_wins(t: Seq<TerminalRoot>, r: Seq<char>)
    ensures
        some_has_root(t, r) ==> exists|i: int|
            is_last_with_root(t, r, i) && assoc_get(root_terminals(t), r) == Some(
                #[trigger] t[i].terminal_id,
            ),
        !some_has_root(t, r) ==> assoc_get(root_terminals(t), r) is None,
    decreases t.len(),
{
    if t.len() > 0 {
        let p = t.drop_last();
        law_root_terminals_last_wins(p, r);
        let last = t.last();
        let before = root_terminals(p);
        if let Some(x) = last.root {
            law_assoc_insert_get(before, x@, last.terminal_id, r);
        }
        if has_root(last, r) {
            assert(is_last_with_root(t, r, t.len() - 1));
            assert(t[t.len() - 1].terminal_id == last.terminal_id);
        } else {
            if some_has_root(t, r) {
                let i = choose|i: int| 0 <= i < t.len() && has_root(#[trigger] t[i], r);
                assert(i < p.len());
                assert(p[i] == t[i]);
                assert(some_has_root(p, r));
                let i2 = choose|i: int|
                    is_last_with_root(p, r, i) && assoc_get(before, r) == Some(#[trigger] p[i].terminal_id);
                assert(t[i2] == p[i2]);
                assert forall|j: int| i2 < j < t.len() implies !has_root(#[trigger] t[j], r) by {
                    if j < p.len() {
                        assert(t[j] == p[j]);
                    }
                }
                assert(is_last_with_root(t, r, i2));
            } else {
                assert forall|i: int| 0 <= i < p.len() implies !has_root(#[trigger] p[i], r) by {
                    assert(t[i] == p[i]);
                }
            }
        }
    }
}

fn terminal_roots_exec(t: &Vec<TerminalRoot>) -> (r: Vec<String>)
    ensures
        texts(r@) == terminal_roots(t@),
{
    let mut r: Vec<String> = Vec::new();
    let mut i: usize = 0;
    while i < t.len()
        invariant
            i <= t.len(),
            texts(r@) == terminal_roots(t@.take(i as int)),
        decreases t.len() - i,
    {
        assert(t@.take(i + 1).drop_last() =~= t@.take(i as int));
        match &t[i].root {
            Some(root) => {
                r.push(root.clone());
                assert(texts(r@) =~= terminal_roots(t@.take(i as int)).push(root@));
            },
            None => {},
        }
        i += 1;
    }
    assert(t@.take(t.len() as int) =~= t@);
    r
}

fn local_roots_exec(l: &Vec<LocalPathRoot>, seen: Vec<String>) -> (r: (Vec<String>, Vec<String>))
    ensures
        (texts(r.0@), texts(r.1@)) == local_roots(l@, texts(seen@)),
{
    let ghost seen0 = texts(seen@);
    let mut roots: Vec<String> = Vec::new();
    let mut seen = seen;
    let mut i: usize = 0;
    while i < l.len()
        invariant
            i <= l.len(),
            (texts(roots@), texts(seen@)) == local_roots(l@.take(i as int), seen0),
        decreases l.len() - i,
    {
        assert(l@.take(i + 1).drop_last() =~= l@.take(i as int));
        let ghost before_roots = texts(roots@);
        let ghost before_seen = texts(seen@);
        match &l[i].resolved {
            None => {},
            Some(resolved) => {
                if !is_listed(&seen, resolved) {
                    match &l[i].root {
                        Some(root) => {
                            roots.push(root.clone());
                            assert(texts(roots@) =~= before_roots.push(root@));
                        },
                        None => {},
                    }
                    seen.push(resolved.clone());
                    assert(texts(seen@) =~= before_seen.push(resolved@));
                }
            },
        }
        i += 1;
    }
    assert(l@.take(l.len() as int) =~= l@);
    (roots, seen)
}

/// The repository root the table gives for `p`.
fn repo_root_lookup(table: &Vec<RepoRootOf>, p: &String) -> (r: Option<String>)
    ensures
        match r {
            Some(x) => repo_root_in(table@, p@) == Some(x@),
            None => repo_root_in(table@, p@) is None,
        },
{
    let mut i = table.len();
    assert(table@.take(table.len() as int) =~= table@);
    while i > 0
        invariant
            i <= table.len(),
            forall|k: int| i <= k < table.len() ==> table@[k].path@ != p@,
            repo_root_in(table@, p@) == repo_root_in(table@.take(i as int), p@),
        decreases i,
    {
        assert(table@.take(i as int).drop_last() =~= table@.take(i - 1));
        if table[i - 1].path == *p {
            return match &table[i - 1].repo_root {
                Some(x) => Some(x.clone()),
                None => None,
            };
        }
        i -= 1;
    }
    None
}

fn repo_roots_exec(table: &Vec<RepoRootOf>, dirs: &Vec<String>) -> (r: Vec<String>)
    ensures
        texts(r@) == repo_roots_of(table@, texts(dirs@)),
{
    let mut r: Vec<String> = Vec::new();
    let mut i: usize = 0;
    let ghost d = texts(dirs@);
    while i < dirs.len()
        invariant
            i <= dirs.len(),
            d == texts(dirs@),
            texts(r@) == repo_roots_of(table@, d.take(i as int)),
        decreases dirs.len() - i,
    {
        assert(d.take(i + 1).drop_last() =~= d.take(i as int));
        assert(d.take(i + 1).last() == dirs@[i as int]@);
        match repo_root_lookup(table, &dirs[i]) {
            Some(x) => {
                let ghost before = texts(r@);
                r.push(x);
                assert(texts(r@) =~= before.push(r@[r@.len() - 1]@));
            },
            None => {},
        }
        i += 1;
    }
    assert(d.take(dirs.len() as int) =~= d);
    r
}

fn assoc_get_exec(m: &Vec<(String, usize)>, k: &String) -> (r: Option<usize>)
    ensures
        r == assoc_get(assoc_view(m@), k@),
{
    let mut i = m.len();
    assert(m@.take(m.len() as int) =~= m@);
    while i > 0
        invariant
            i <= m.len(),
            assoc_get(assoc_view(m@), k@) == assoc_get(assoc_view(m@.take(i as int)), k@),
        decreases i,
    {
        assert(assoc_view(m@.take(i as int)).drop_last() =~= assoc_view(m@.take(i - 1)));
        if m[i - 1].0 == *k {
            return Some(m[i - 1].1);
        }
        i -= 1;
    }
    None
}

fn assoc_insert_exec(m: &mut Vec<(String, usize)>, k: String, v: usize)
    ensures
        assoc_view(final(m)@) == assoc_insert(assoc_view(old(m)@), k@, v),
{
    let ghost old_view = assoc_view(m@);
    let mut found = false;
    let mut i: usize = 0;
    while i < m.len()
        invariant
            i <= m.len() == old_view.len(),
            found <==> exists|j: int| 0 <= j < i && #[trigger] old_view[j].0 == k@,
            forall|j: int|
                0 <= j < i ==> #[trigger] assoc_view(m@)[j] == (if old_view[j].0 == k@ {
                    (k@, v)
                } else {
                    old_view[j]
                }),
            forall|j: int| i <= j < m.len() ==> #[trigger] assoc_view(m@)[j] == old_view[j],
        decreases m.len() - i,
    {
        let ghost before = m@;
        assert(assoc_view(before)[i as int] == old_view[i as int]);
        if m[i].0 == k {
            assert(old_view[i as int].0 == k@);
            m.set(i, (k.clone(), v));
            found = true;
            assert forall|j: int| 0 <= j < m@.len() && j != i implies #[trigger] assoc_view(m@)[j]
                == assoc_view(before)[j] by {
                assert(m@[j] == before[j]);
            }
            assert(assoc_view(m@)[i as int] == (k@, v));
        } else {
            assert(old_view[i as int].0 != k@);
        }
        i += 1;
    }
    if found {
        proof {
            let j = choose|j: int| 0 <= j < old_view.len() && #[trigger] old_view[j].0 == k@;
            assert(assoc_keys(old_view)[j] == k@);
        }
        assert(assoc_view(m@) =~= old_view.map_values(
            |e: (Seq<char>, usize)| if e.0 == k@ { (k@, v) } else { e },
        ));
    } else {
        assert forall|j: int| 0 <= j < old_view.len() implies assoc_keys(old_view)[j] != k@ by {
            assert(old_view[j].0 != k@);
        }
        assert(assoc_view(m@) =~= old_view);
        m.push((k, v));
        assert(assoc_view(m@) =~= old_view.push((k@, v)));
    }
}

fn root_terminals_exec(t: &Vec<TerminalRoot>) -> (r: Vec<(String, usize)>)
    ensures
        assoc_view(r@) == root_terminals(t@),
{
    let mut r: Vec<(String, usize)> = Vec::new();
    let mut i: usize = 0;
    assert(assoc_view(r@) =~= Seq::<(Seq<char>, usize)>::empty());
    while i < t.len()
        invariant
            i <= t.len(),
            assoc_view(r@) == root_terminals(t@.take(i as int)),
        decreases t.len() - i,
    {
        assert(t@.take(i + 1).drop_last() =~= t@.take(i as int));
        match &t[i].root {
            Some(root) => {
                assoc_insert_exec(&mut r, root.clone(), t[i].terminal_id);
            },
            None => {},
        }
        i += 1;
    }
    assert(t@.take(t.len() as int) =~= t@);
    r
}

fn assoc_keep_exec(m: Vec<(String, usize)>, keys: &Vec<String>) -> (r: Vec<(String, usize)>)
    ensures
        assoc_view(r@) == assoc_keep(assoc_view(m@), texts(keys@)),
{
    let mut r: Vec<(String, usize)> = Vec::new();
    let mut i: usize = 0;
    let ghost mv = assoc_view(m@);
    assert(assoc_view(r@) =~= Seq::<(Seq<char>, usize)>::empty());
    while i < m.len()
        invariant
            i <= m.len(),
            mv == assoc_view(m@),
            assoc_view(r@) == assoc_keep(mv.take(i as int), texts(keys@)),
        decreases m.len() - i,
    {
        assert(mv.take(i + 1).drop_last() =~= mv.take(i as int));
        if is_listed(keys, &m[i].0) {
            let ghost before = assoc_view(r@);
            r.push((m[i].0.clone(), m[i].1));
            assert(assoc_view(r@) =~= before.push(mv[i as int]));
        }
        i += 1;
    }
    assert(mv.take(m.len() as int) =~= mv);
    r
}

fn focused_repos_exec(m: &Vec<(String, usize)>, table: &Vec<RepoRootOf>, focused: usize) -> (r: (
    Vec<String>,
    Option<String>,
))
    ensures
        texts(r.0@) == focused_repos(assoc_view(m@), table@, focused).0,
        match r.1 {
            Some(x) => focused_repos(assoc_view(m@), table@, focused).1 == Some(x@),
            None => focused_repos(assoc_view(m@), table@, focused).1 is None,
        },
{
    let mut repos: Vec<String> = Vec::new();
    let mut last: Option<String> = None;
    let mut i: usize = 0;
    let ghost mv = assoc_view(m@);
    while i < m.len()
        invariant
            i <= m.len(),
            mv == assoc_view(m@),
            texts(repos@) == focused_repos(mv.take(i as int), table@, focused).0,
            match last {
                Some(x) => focused_repos(mv.take(i as int), table@, focused).1 == Some(x@),
                None => focused_repos(mv.take(i as int), table@, focused).1 is None,
            },
        decreases m.len() - i,
    {
        assert(mv.take(i + 1).drop_last() =~= mv.take(i as int));
        if m[i].1 == focused {
            match repo_root_lookup(table, &m[i].0) {
                Some(x) => {
                    let ghost before = texts(repos@);
                    repos.push(x.clone());
                    assert(texts(repos@) =~= before.push(x@));
                    last = Some(x);
                },
                None => {},
            }
        }
        i += 1;
    }
    assert(mv.take(m.len() as int) =~= mv);
    (repos, last)
}

fn assoc_insert_all_exec(m: &mut Vec<(String, usize)>, keys: &Vec<String>, v: usize)
    ensures
        assoc_view(final(m)@) == assoc_insert_all(assoc_view(old(m)@), texts(keys@), v),
{
    let ghost start = assoc_view(m@);
    let ghost kv = texts(keys@);
    let mut i: usize = 0;
    while i < keys.len()
        invariant
            i <= keys.len(),
            kv == texts(keys@),
            assoc_view(m@) == assoc_insert_all(start, kv.take(i as int), v),
        decreases keys.len() - i,
    {
        assert(kv.take(i + 1).drop_last() =~= kv.take(i as int));
        assert(kv.take(i + 1).last() == keys@[i as int]@);
        assoc_insert_exec(m, keys[i].clone(), v);
        i += 1;
    }
    assert(kv.take(keys.len() as int) =~= kv);
}

/// What an event says.
pub enum WorkingDirectoriesEventView {
    Directories(usize, Seq<(Seq<char>, Option<usize>)>),
    Repositories(usize, Seq<Seq<char>>),
    FocusedRepo(usize, Seq<(Seq<char>, usize)>, Option<Seq<char>>),
}

pub open spec fn directory_views(v: Seq<WorkingDirectory>) -> Seq<(Seq<char>, Option<usize>)> {
    v.map_values(|d: WorkingDirectory| (d.path@, d.terminal_id))
}

pub open spec fn opt_text(o: Option<String>) -> Option<Seq<char>> {
    match o {
        Some(s) => Some(s@),
        None => None,
    }
}

impl View for WorkingDirectoriesEvent {
    type V = WorkingDirectoriesEventView;

    open spec fn view(&self) -> WorkingDirectoriesEventView {
        match self {
            WorkingDirectoriesEvent::DirectoriesChanged { pane_group_id, directories } =>
                WorkingDirectoriesEventView::Directories(
                *pane_group_id,
                directory_views(directories@),
            ),
            WorkingDirectoriesEvent::RepositoriesChanged { pane_group_id, repositories } =>
                WorkingDirectoriesEventView::Repositories(*pane_group_id, texts(repositories@)),
            WorkingDirectoriesEvent::FocusedRepoChanged {
                pane_group_id,
                repository_terminal_map,
                focused_repo,
            } => WorkingDirectoriesEventView::FocusedRepo(
                *pane_group_id,
                assoc_view(repository_terminal_map@),
                opt_text(*focused_repo),
            ),
        }
    }
}

pub open spec fn event_views(v: Seq<WorkingDirectoriesEvent>) -> Seq<WorkingDirectoriesEventView> {
    v.map_values(|e: WorkingDirectoriesEvent| e@)
}

/// The items of an optional set (none when absent).
pub open spec fn set_items(o: Option<IndexSet<String>>) -> Seq<Seq<char>> {
    match o {
        Some(s) => index_set_items(s),
        None => Seq::empty(),
    }
}

/// The entries of an optional map (none when absent).
pub open spec fn map_entries(o: Option<Vec<(String, usize)>>) -> Seq<(Seq<char>, usize)> {
    match o {
        Some(m) => assoc_view(m@),
        None => Seq::empty(),
    }
}

/// The recorded focused repository (none when absent).
pub open spec fn focus_of(o: Option<Option<String>>) -> Option<Seq<char>> {
    match o {
        Some(Some(s)) => Some(s@),
        _ => None,
    }
}

/// The events of clearing a pane group: an empty list for each part that was recorded.
pub open spec fn cleared_events(g: PaneGroupDirectories, id: usize) -> Seq<
    WorkingDirectoriesEventView,
> {
    (if g.roots is Some {
        seq![WorkingDirectoriesEventView::Directories(id, Seq::empty())]
    } else {
        Seq::empty()
    }) + (if g.repositories is Some {
        seq![WorkingDirectoriesEventView::Repositories(id, Seq::empty())]
    } else {
        Seq::empty()
    }) + (if g.root_to_terminal is Some {
        seq![WorkingDirectoriesEventView::FocusedRepo(id, Seq::empty(), None)]
    } else {
        Seq::empty()
    })
}

/// The roots of a pane group after a refresh.
pub open spec fn refreshed_roots(
    g: PaneGroupDirectories,
    t: Seq<TerminalRoot>,
    l: Seq<LocalPathRoot>,
) -> Seq<Seq<char>> {
    updated_set(set_items(g.roots), new_root_paths(t, l))
}

/// The repository roots of a pane group after a refresh.
pub open spec fn refreshed_repositories(
    g: PaneGroupDirectories,
    t: Seq<TerminalRoot>,
    l: Seq<LocalPathRoot>,
    table: Seq<RepoRootOf>,
) -> Seq<Seq<char>> {
    updated_set(set_items(g.repositories), repo_roots_of(table, refreshed_roots(g, t, l)))
}

/// The events of a refresh: each part that changed is reported, directories and repositories
/// most recent first.
pub open spec fn refresh_events(
    g: PaneGroupDirectories,
    id: usize,
    t: Seq<TerminalRoot>,
    l: Seq<LocalPathRoot>,
    table: Seq<RepoRootOf>,
    focused_terminal: Option<usize>,
) -> Seq<WorkingDirectoriesEventView> {
    let dirs = refreshed_roots(g, t, l);
    let (m, focus) = refreshed_terminal_map(t, l, dirs, table, focused_terminal);
    let old_dirs = directories_with_terminals(set_items(g.roots), map_entries(g.root_to_terminal));
    let new_dirs = directories_with_terminals(dirs, m);
    let repos = refreshed_repositories(g, t, l, table);
    (if old_dirs != new_dirs {
        seq![WorkingDirectoriesEventView::Directories(id, new_dirs.reverse())]
    } else {
        Seq::empty()
    }) + (if set_items(g.repositories) != repos {
        seq![WorkingDirectoriesEventView::Repositories(id, repos.reverse())]
    } else {
        Seq::empty()
    }) + (if focus_of(g.focused_repo) != focus {
        seq![WorkingDirectoriesEventView::FocusedRepo(id, m, focus)]
    } else {
        Seq::empty()
    })
}

/// Reversing one more element of the tail puts it last.
pub proof fn lemma_reverse_skip<A>(s: Seq<A>, i: int)
    requires
        0 < i <= s.len(),
    ensures
        s.skip(i - 1).reverse() == s.skip(i).reverse().push(s[i - 1]),
{
    assert(s.skip(i - 1).reverse() =~= s.skip(i).reverse().push(s[i - 1]));
}

fn reversed_texts(v: &Vec<String>) -> (r: Vec<String>)
    ensures
        texts(r@) == texts(v@).reverse(),
{
    let mut r: Vec<String> = Vec::new();
    let mut i = v.len();
    while i > 0
        invariant
            i <= v.len(),
            texts(r@) == texts(v@).skip(i as int).reverse(),
        decreases i,
    {
        let ghost before = r@;
        r.push(v[i - 1].clone());
        assert(r@ == before.push(v@[i - 1]));
        assert(texts(r@) =~= texts(before).push(v@[i - 1]@));
        proof {
            lemma_reverse_skip(texts(v@), i as int);
        }
        i -= 1;
    }
    assert(texts(v@).skip(0) =~= texts(v@));
    r
}

fn directories_exec(dirs: &Vec<String>, m: &Vec<(String, usize)>) -> (r: Vec<WorkingDirectory>)
    ensures
        directory_views(r@) == directories_with_terminals(texts(dirs@), assoc_view(m@)),
{
    let mut r: Vec<WorkingDirectory> = Vec::new();
    let mut i: usize = 0;
    while i < dirs.len()
        invariant
            i <= dirs.len(),
            r@.len() == i,
            forall|k: int|
                0 <= k < i ==> #[trigger] directory_views(r@)[k] == directories_with_terminals(
                    texts(dirs@),
                    assoc_view(m@),
                )[k],
        decreases dirs.len() - i,
    {
        let t = assoc_get_exec(m, &dirs[i]);
        let ghost before = r@;
        r.push(WorkingDirectory { path: dirs[i].clone(), terminal_id: t });
        assert(directory_views(r@) =~= directory_views(before).push((dirs@[i as int]@, t)));
        assert(directory_views(r@)[i as int] == directories_with_terminals(
            texts(dirs@),
            assoc_view(m@),
        )[i as int]);
        i += 1;
    }
    assert(directory_views(r@) =~= directories_with_terminals(texts(dirs@), assoc_view(m@)));
    r
}

fn reversed_directories(v: &Vec<WorkingDirectory>) -> (r: Vec<WorkingDirectory>)
    ensures
        directory_views(r@) == directory_views(v@).reverse(),
{
    let mut r: Vec<WorkingDirectory> = Vec::new();
    let mut i = v.len();
    while i > 0
        invariant
            i <= v.len(),
            directory_views(r@) == directory_views(v@).skip(i as int).reverse(),
        decreases i,
    {
        let ghost before = r@;
        r.push(WorkingDirectory { path: v[i - 1].path.clone(), terminal_id: v[i - 1].terminal_id });
        assert(directory_views(r@) =~= directory_views(before).push(directory_views(v@)[i - 1]));
        proof {
            lemma_reverse_skip(directory_views(v@), i as int);
        }
        i -= 1;
    }
    assert(directory_views(v@).skip(0) =~= directory_views(v@));
    r
}

fn same_directories(a: &Vec<WorkingDirectory>, b: &Vec<WorkingDirectory>) -> (r: bool)
    ensures
        r == (directory_views(a@) == directory_views(b@)),
{
    if a.len() != b.len() {
        assert(directory_views(a@).len() != directory_views(b@).len());
        return false;
    }
    let mut i: usize = 0;
    while i < a.len()
        invariant
            i <= a.len() == b.len(),
            forall|k: int| 0 <= k < i ==> directory_views(a@)[k] == directory_views(b@)[k],
        decreases a.len() - i,
    {
        if a[i].path != b[i].path || a[i].terminal_id != b[i].terminal_id {
            assert(directory_views(a@)[i as int] != directory_views(b@)[i as int]);
            return false;
        }
        i += 1;
    }
    assert(directory_views(a@) =~= directory_views(b@));
    true
}

fn same_texts(a: &Vec<String>, b: &Vec<String>) -> (r: bool)
    ensures
        r == (texts(a@) == texts(b@)),
{
    if a.len() != b.len() {
        assert(texts(a@).len() != texts(b@).len());
        return false;
    }
    let mut i: usize = 0;
    while i < a.len()
        invariant
            i <= a.len() == b.len(),
            forall|k: int| 0 <= k < i ==> texts(a@)[k] == texts(b@)[k],
        decreases a.len() - i,
    {
        if a[i] != b[i] {
            assert(texts(a@)[i as int] != texts(b@)[i as int]);
            return false;
        }
        i += 1;
    }
    assert(texts(a@) =~= texts(b@));
    true
}

fn same_focus(a: &Option<String>, b: &Option<String>) -> (r: bool)
    ensures
        r == (opt_text(*a) == opt_text(*b)),
{
    match (a, b) {
        (Some(x), Some(y)) => *x == *y,
        (None, None) => true,
        _ => false,
    }
}

fn copy_assoc(m: &Vec<(String, usize)>) -> (r: Vec<(String, usize)>)
    ensures
        assoc_view(r@) == assoc_view(m@),
{
    let mut r: Vec<(String, usize)> = Vec::new();
    let mut i: usize = 0;
    while i < m.len()
        invariant
            i <= m.len(),
            assoc_view(r@) == assoc_view(m@).take(i as int),
        decreases m.len() - i,
    {
        let ghost before = r@;
        r.push((m[i].0.clone(), m[i].1));
        assert(assoc_view(r@) =~= assoc_view(before).push(assoc_view(m@)[i as int]));
        assert(assoc_view(r@) =~= assoc_view(m@).take(i + 1));
        i += 1;
    }
    assert(assoc_view(m@).take(m.len() as int) =~= assoc_view(m@));
    r
}

fn copy_focus(a: &Option<String>) -> (r: Option<String>)
    ensures
        opt_text(r) == opt_text(*a),
{
    match a {
        Some(x) => Some(x.clone()),
        None => None,
    }
}

impl PaneGroupDirectories {
    /// A pane group the model knows nothing about yet.
    pub fn new() -> (r: Self)
        ensures
            r.roots is None,
            r.repositories is None,
            r.root_to_terminal is None,
            r.focused_repo is None,
    {
        PaneGroupDirectories {
            roots: None,
            repositories: None,
            root_to_terminal: None,
            focused_repo: None,
        }
    }

    /// Forgets the roots, repositories and terminal map (not the focused repository),
    /// reporting an empty list for each part that was recorded.
    pub fn clear(&mut self, pane_group_id: usize) -> (events: Vec<WorkingDirectoriesEvent>)
        ensures
            final(self).roots is None,
            final(self).repositories is None,
            final(self).root_to_terminal is None,
            focus_of(final(self).focused_repo) == focus_of(old(self).focused_repo),
            final(self).focused_repo is Some == old(self).focused_repo is Some,
            event_views(events@) == cleared_events(*old(self), pane_group_id),
    {
        let mut events: Vec<WorkingDirectoriesEvent> = Vec::new();
        let had_roots = self.roots.is_some();
        let had_repos = self.repositories.is_some();
        let had_map = self.root_to_terminal.is_some();
        self.roots = None;
        self.repositories = None;
        self.root_to_terminal = None;
        if had_roots {
            events.push(
                WorkingDirectoriesEvent::DirectoriesChanged {
                    pane_group_id,
                    directories: Vec::new(),
                },
            );
        }
        if had_repos {
            events.push(
                WorkingDirectoriesEvent::RepositoriesChanged {
                    pane_group_id,
                    repositories: Vec::new(),
                },
            );
        }
        if had_map {
            events.push(
                WorkingDirectoriesEvent::FocusedRepoChanged {
                    pane_group_id,
                    repository_terminal_map: Vec::new(),
                    focused_repo: None,
                },
            );
        }
        proof {
            assert(directory_views(Seq::<WorkingDirectory>::empty()) =~= Seq::empty());
            assert(texts(Seq::<String>::empty()) =~= Seq::empty());
            assert(assoc_view(Seq::<(String, usize)>::empty()) =~= Seq::empty());
        }
        assert(event_views(events@) =~= cleared_events(*old(self), pane_group_id));
        events
    }

    /// The roots, most recently added first, each with a terminal showing it.
    pub fn most_recent_directories(&self) -> (r: Option<Vec<WorkingDirectory>>)
        ensures
            r is Some == self.roots is Some,
            r matches Some(v) ==> directory_views(v@) == directories_with_terminals(
                set_items(self.roots),
                map_entries(self.root_to_terminal),
            ).reverse(),
    {
        match &self.roots {
            None => None,
            Some(set) => {
                let dirs = index_set_items_vec(set);
                let empty: Vec<(String, usize)> = Vec::new();
                let m = match &self.root_to_terminal {
                    Some(m) => m,
                    None => &empty,
                };
                assert(assoc_view(empty@) =~= Seq::<(Seq<char>, usize)>::empty());
                let with_terminals = directories_exec(&dirs, m);
                Some(reversed_directories(&with_terminals))
            },
        }
    }

    /// The repository roots, most recently added first.
    pub fn most_recent_repositories(&self) -> (r: Option<Vec<String>>)
        ensures
            r is Some == self.repositories is Some,
            r matches Some(v) ==> texts(v@) == set_items(self.repositories).reverse(),
    {
        match &self.repositories {
            None => None,
            Some(set) => {
                let repos = index_set_items_vec(set);
                Some(reversed_texts(&repos))
            },
        }
    }

    /// The terminal recorded for a root path.
    pub fn terminal_id_for_root_path(&self, root_path: &String) -> (r: Option<usize>)
        ensures
            r == assoc_get(map_entries(self.root_to_terminal), root_path@),
    {
        match &self.root_to_terminal {
            Some(m) => assoc_get_exec(m, root_path),
            None => None,
        }
    }

    /// Recomputes the pane group's roots, repositories, terminal map and focused repository
    /// from the terminals' working directories and the files open in its panes, and reports
    /// what changed. With no terminals and no files, the pane group is cleared instead.
    /// What refreshing `before` from the given terminals, files and repository table
    /// leaves, and the events it reports.
    pub open spec fn is_refresh_of(
        self,
        before: PaneGroupDirectories,
        pane_group_id: usize,
        terminals: Seq<TerminalRoot>,
        local_paths: Seq<LocalPathRoot>,
        repo_table: Seq<RepoRootOf>,
        focused_terminal_id: Option<usize>,
        events: Seq<WorkingDirectoriesEvent>,
    ) -> bool {
        &&& terminals.len() == 0 && local_paths.len() == 0 ==> {
                &&& self.roots is None
                &&& self.repositories is None
                &&& self.root_to_terminal is None
                &&& focus_of(self.focused_repo) == focus_of(before.focused_repo)
                &&& event_views(events) == cleared_events(before, pane_group_id)
            }
        &&& terminals.len() != 0 || local_paths.len() != 0 ==> {
                let dirs = refreshed_roots(before, terminals, local_paths);
                let (m, focus) = refreshed_terminal_map(
                    terminals,
                    local_paths,
                    dirs,
                    repo_table,
                    focused_terminal_id,
                );
                &&& set_items(self.roots) == dirs
                &&& self.roots is Some
                &&& self.repositories is Some
                &&& set_items(self.repositories) == refreshed_repositories(
                    before,
                    terminals,
                    local_paths,
                    repo_table,
                )
                &&& self.root_to_terminal is Some
                &&& map_entries(self.root_to_terminal) == m
                &&& focus_of(before.focused_repo) != focus ==> self.focused_repo
                    is Some && focus_of(self.focused_repo) == focus
                &&& focus_of(before.focused_repo) == focus ==> focus_of(
                    self.focused_repo,
                ) == focus_of(before.focused_repo)
                &&& event_views(events) == refresh_events(
                    before,
                    pane_group_id,
                    terminals,
                    local_paths,
                    repo_table,
                    focused_terminal_id,
                )
            }
    }

    pub fn refresh(
        &mut self,
        pane_group_id: usize,
        terminals: Vec<TerminalRoot>,
        local_paths: Vec<LocalPathRoot>,
        repo_table: Vec<RepoRootOf>,
        focused_terminal_id: Option<usize>,
    ) -> (events: Vec<WorkingDirectoriesEvent>)
        ensures
            final(self).is_refresh_of(
                *old(self),
                pane_group_id,
                terminals@,
                local_paths@,
                repo_table@,
                focused_terminal_id,
                events@,
            ),
    {
        if terminals.len() == 0 && local_paths.len() == 0 {
            return self.clear(pane_group_id);
        }
        let ghost g = *self;
        // What the pane group showed before.
        let empty_map: Vec<(String, usize)> = Vec::new();
        assert(assoc_view(empty_map@) =~= Seq::<(Seq<char>, usize)>::empty());
        let old_dirs_list: Vec<String> = match &self.roots {
            Some(set) => index_set_items_vec(set),
            None => Vec::new(),
        };
        assert(texts(old_dirs_list@) =~= set_items(g.roots));
        let old_directories = match &self.root_to_terminal {
            Some(m) => directories_exec(&old_dirs_list, m),
            None => directories_exec(&old_dirs_list, &empty_map),
        };
        let old_repos: Vec<String> = match &self.repositories {
            Some(set) => index_set_items_vec(set),
            None => Vec::new(),
        };
        assert(texts(old_repos@) =~= set_items(g.repositories));
        let old_focus: Option<String> = match &self.focused_repo {
            Some(Some(f)) => Some(f.clone()),
            _ => None,
        };

        // The new roots: terminals first, then files not already covered.
        let term_roots = terminal_roots_exec(&terminals);
        let seen = reversed_texts(&reversed_texts(&term_roots));
        assert(texts(term_roots@).reverse().reverse() =~= texts(term_roots@));
        let (local, _) = local_roots_exec(&local_paths, seen);
        let mut new_roots = term_roots;
        let mut local_copy = local;
        new_roots.append(&mut local_copy);
        assert(texts(new_roots@) =~= new_root_paths(terminals@, local_paths@));

        let mut roots_set = match self.roots.take() {
            Some(set) => set,
            None => index_set_new(),
        };
        update_index_set(&mut roots_set, new_roots.clone());
        assert(texts(new_roots@) == new_root_paths(terminals@, local_paths@));
        let dirs = index_set_items_vec(&roots_set);
        self.roots = Some(roots_set);

        // Repository roots and the terminal of each root.
        let repo_roots = repo_roots_exec(&repo_table, &dirs);
        let mut keys = repo_roots.clone();
        let mut roots_copy = new_roots.clone();
        keys.append(&mut roots_copy);
        assert(texts(keys@) =~= texts(repo_roots@) + texts(new_roots@));
        let mut map = assoc_keep_exec(root_terminals_exec(&terminals), &keys);
        let mut focus: Option<String> = None;
        match focused_terminal_id {
            Some(f) => {
                let (to_add, last) = focused_repos_exec(&map, &repo_table, f);
                assoc_insert_all_exec(&mut map, &to_add, f);
                focus = last;
            },
            None => {},
        }

        let mut repos_set = match self.repositories.take() {
            Some(set) => set,
            None => index_set_new(),
        };
        update_index_set(&mut repos_set, repo_roots);
        let new_repos = index_set_items_vec(&repos_set);
        self.repositories = Some(repos_set);

        let new_directories = directories_exec(&dirs, &map);
        self.root_to_terminal = Some(copy_assoc(&map));

        let mut events: Vec<WorkingDirectoriesEvent> = Vec::new();
        let ghost e1 = if directory_views(old_directories@) != directory_views(new_directories@) {
            seq![
                WorkingDirectoriesEventView::Directories(
                    pane_group_id,
                    directory_views(new_directories@).reverse(),
                ),
            ]
        } else {
            Seq::empty()
        };
        let ghost e2 = if texts(old_repos@) != texts(new_repos@) {
            seq![
                WorkingDirectoriesEventView::Repositories(
                    pane_group_id,
                    texts(new_repos@).reverse(),
                ),
            ]
        } else {
            Seq::empty()
        };
        if !same_directories(&old_directories, &new_directories) {
            events.push(
                WorkingDirectoriesEvent::DirectoriesChanged {
                    pane_group_id,
                    directories: reversed_directories(&new_directories),
                },
            );
        }
        assert(event_views(events@) =~= e1);
        if !same_texts(&old_repos, &new_repos) {
            events.push(
                WorkingDirectoriesEvent::RepositoriesChanged {
                    pane_group_id,
                    repositories: reversed_texts(&new_repos),
                },
            );
        }
        assert(event_views(events@) =~= e1 + e2);
        if !same_focus(&old_focus, &focus) {
            self.focused_repo = Some(copy_focus(&focus));
            events.push(
                WorkingDirectoriesEvent::FocusedRepoChanged {
                    pane_group_id,
                    repository_terminal_map: map,
                    focused_repo: focus,
                },
            );
        }
        assert(event_views(events@) =~= refresh_events(
            g,
            pane_group_id,
            terminals@,
            local_paths@,
            repo_table@,
            focused_terminal_id,
        ));
        events
    }
}

/// Tracks the working directories of every pane group and reports changes.
pub struct WorkingDirectoriesModel {
    pane_groups: HashMap<usize, PaneGroupDirectories>,
}

impl WorkingDirectoriesModel {
    /// What is recorded for each pane group.
    pub closed spec fn groups(&self) -> Map<usize, PaneGroupDirectories> {
        self.pane_groups@
    }

    /// What is recorded for a pane group (nothing when absent).
    pub open spec fn group(&self, id: usize) -> PaneGroupDirectories {
        if self.groups().contains_key(id) {
            self.groups()[id]
        } else {
            PaneGroupDirectories {
                roots: None,
                repositories: None,
                root_to_terminal: None,
                focused_repo: None,
            }
        }
    }

    pub fn new() -> (r: Self)
        ensures
            r.groups() == Map::<usize, PaneGroupDirectories>::empty(),
    {
        WorkingDirectoriesModel { pane_groups: HashMap::new() }
    }

    /// The roots of a pane group, most recently added first, each with a terminal showing it.
    pub fn most_recent_directories_for_pane_group(&self, pane_group_id: usize) -> (r: Option<
        Vec<WorkingDirectory>,
    >)
        ensures
            r is Some == self.group(pane_group_id).roots is Some,
            r matches Some(v) ==> directory_views(v@) == directories_with_terminals(
                set_items(self.group(pane_group_id).roots),
                map_entries(self.group(pane_group_id).root_to_terminal),
            ).reverse(),
    {
        broadcast use vstd::std_specs::hash::group_hash_axioms;

        match self.pane_groups.get(&pane_group_id) {
            Some(g) => g.most_recent_directories(),
            None => None,
        }
    }

    /// The repository roots of a pane group, most recently added first.
    pub fn most_recent_repositories_for_pane_group(&self, pane_group_id: usize) -> (r: Option<
        Vec<String>,
    >)
        ensures
            r is Some == self.group(pane_group_id).repositories is Some,
            r matches Some(v) ==> texts(v@) == set_items(
                self.group(pane_group_id).repositories,
            ).reverse(),
    {
        broadcast use vstd::std_specs::hash::group_hash_axioms;

        match self.pane_groups.get(&pane_group_id) {
            Some(g) => g.most_recent_repositories(),
            None => None,
        }
    }

    /// The terminal recorded for a root path of a pane group.
    pub fn get_terminal_id_for_root_path(&self, pane_group_id: usize, root_path: &String) -> (r:
        Option<usize>)
        ensures
            r == assoc_get(map_entries(self.group(pane_group_id).root_to_terminal), root_path@),
    {
        broadcast use vstd::std_specs::hash::group_hash_axioms;

        match self.pane_groups.get(&pane_group_id) {
            Some(g) => g.terminal_id_for_root_path(root_path),
            None => None,
        }
    }

    /// Forgets everything about a pane group that is closed, reporting an empty list for each
    /// part that was recorded.
    pub fn remove_pane_group(&mut self, pane_group_id: usize) -> (events: Vec<
        WorkingDirectoriesEvent,
    >)
        ensures
            final(self).groups() == old(self).groups().remove(pane_group_id),
            event_views(events@) == cleared_events(old(self).group(pane_group_id), pane_group_id),
    {
        broadcast use vstd::std_specs::hash::group_hash_axioms;

        match self.pane_groups.remove(&pane_group_id) {
            Some(mut g) => g.clear(pane_group_id),
            None => {
                let mut g = PaneGroupDirectories::new();
                g.clear(pane_group_id)
            },
        }
    }

    /// Recomputes a pane group's directories (see [`PaneGroupDirectories::refresh`]) and
    /// reports what changed.
    pub fn refresh_working_directories_for_pane_group(
        &mut self,
        pane_group_id: usize,
        terminals: Vec<TerminalRoot>,
        local_paths: Vec<LocalPathRoot>,
        repo_table: Vec<RepoRootOf>,
        focused_terminal_id: Option<usize>,
    ) -> (events: Vec<WorkingDirectoriesEvent>)
        ensures
            final(self).groups().dom() == old(self).groups().dom().insert(pane_group_id),
            forall|k: usize|
                k != pane_group_id ==> #[trigger] final(self).group(k) == old(self).group(k),
            final(self).group(pane_group_id).is_refresh_of(
                old(self).group(pane_group_id),
                pane_group_id,
                terminals@,
                local_paths@,
                repo_table@,
                focused_terminal_id,
                events@,
            ),
    {
        broadcast use vstd::std_specs::hash::group_hash_axioms;

        let mut g = match self.pane_groups.remove(&pane_group_id) {
            Some(g) => g,
            None => PaneGroupDirectories::new(),
        };
        let events = g.refresh(
            pane_group_id,
            terminals,
            local_paths,
            repo_table,
            focused_terminal_id,
        );
        self.pane_groups.insert(pane_group_id, g);
        events
    }
}

} // verus!
