//! Up-arrow history: which entries are offered, in which order, and without
//! repeats.
use vstd::prelude::*;

verus! {

/// Controls which item types are included in up-arrow history results.
#[derive(Copy, Clone, Debug)]
pub struct UpArrowHistoryConfig {
    pub include_commands: bool,
    pub include_prompts: bool,
}

/// The item type an input can be locked to.
#[derive(Copy, Clone, Debug, PartialEq, Eq, Structural)]
pub enum InputItemType {
    Command,
    Prompt,
}

impl UpArrowHistoryConfig {
    /// Derives the config from the current input config: an input locked to one item type
    /// includes only that type; an unlocked input (type auto-detection) includes both.
    pub fn for_input_config(locked: Option<InputItemType>) -> (r: Self)
        ensures
            r.include_commands <==> (locked != Some(InputItemType::Prompt)),
            r.include_prompts <==> (locked != Some(InputItemType::Command)),
    {
        match locked {
            None => UpArrowHistoryConfig { include_commands: true, include_prompts: true },
            Some(InputItemType::Command) => UpArrowHistoryConfig {
                include_commands: true,
                include_prompts: false,
            },
            Some(InputItemType::Prompt) => UpArrowHistoryConfig {
                include_commands: false,
                include_prompts: true,
            },
        }
    }
}

/// One history suggestion: a shell command or an AI query, with the rank by which suggestions
/// are ordered (lower ranks come first).
#[derive(Clone, Debug)]
pub struct HistoryInputSuggestion {
    pub text: String,
    pub is_ai_query: bool,
    pub rank: u64,
}

impl HistoryInputSuggestion {
    /// A copy of this suggestion.
    pub fn duplicate(&self) -> (r: Self)
        ensures
            r == *self,
    {
        HistoryInputSuggestion {
            text: self.text.clone(),
            is_ai_query: self.is_ai_query,
            rank: self.rank,
        }
    }
}

/// A command from the session history.
#[derive(Clone, Debug)]
pub struct HistoryCommand {
    pub command: String,
    pub is_agent_executed: bool,
    pub rank: u64,
}

/// Whether two suggestions count as the same: same type and same text.
pub open spec fn same_entry(a: HistoryInputSuggestion, b: HistoryInputSuggestion) -> bool {
    a.is_ai_query == b.is_ai_query && a.text@ == b.text@
}

/// Whether some suggestion of `s` is the same as `x`.
pub open spec fn has_entry(s: Seq<HistoryInputSuggestion>, x: HistoryInputSuggestion) -> bool {
    exists|j: int| 0 <= j < s.len() && same_entry(#[trigger] s[j], x)
}

/// `s` keeping, for each entry, only its last occurrence.
pub open spec fn keep_latest(s: Seq<HistoryInputSuggestion>) -> Seq<HistoryInputSuggestion>
    decreases s.len(),
{
    if s.len() == 0 {
        s
    } else {
        let rest = keep_latest(s.drop_first());
        if has_entry(s.drop_first(), s[0]) {
            rest
        } else {
            seq![s[0]] + rest
        }
    }
}

/// Whether the ranks of `s` never decrease.
pub open spec fn sorted_by_rank(s: Seq<HistoryInputSuggestion>) -> bool {
    forall|i: int, j: int| 0 <= i <= j < s.len() ==> s[i].rank <= s[j].rank
}

/// Whether `out` is `inp` sorted stably by rank: `perm` maps each position of `out` to the
/// position in `inp` it came from.
pub open spec fn stable_sort_witness(
    out: Seq<HistoryInputSuggestion>,
    inp: Seq<HistoryInputSuggestion>,
    perm: Seq<int>,
) -> bool {
    &&& out.len() == inp.len()
    &&& perm.len() == inp.len()
    &&& forall|k: int| 0 <= k < perm.len() ==> 0 <= #[trigger] perm[k] < inp.len()
    &&& forall|k: int, l: int| 0 <= k < l < perm.len() ==> perm[k] != perm[l]
    &&& forall|k: int| 0 <= k < out.len() ==> out[k] == inp[#[trigger] perm[k]]
    &&& sorted_by_rank(out)
    &&& forall|k: int, l: int|
        0 <= k < l < out.len() && out[k].rank == out[l].rank ==> perm[k] < perm[l]
}

/// Whether `out` is `inp` sorted stably by rank.
pub open spec fn is_stable_sort_of(
    out: Seq<HistoryInputSuggestion>,
    inp: Seq<HistoryInputSuggestion>,
) -> bool {
    exists|perm: Seq<int>| stable_sort_witness(out, inp, perm)
}

/// Where a suggestion of rank `rank` goes into `s`: before the first suggestion
/// of a higher rank, so after every suggestion of its own rank.
pub open spec fn insert_position(s: Seq<HistoryInputSuggestion>, rank: u64) -> int
    decreases s.len(),
{
    if s.len() == 0 {
        0
    } else if s[0].rank > rank {
        0
    } else {
        1 + insert_position(s.drop_first(), rank)
    }
}

/// `s` sorted by rank, suggestions of equal rank in their order in `s`: each
/// suggestion in turn goes after those of lower or equal rank.
pub open spec fn rank_sorted(s: Seq<HistoryInputSuggestion>) -> Seq<HistoryInputSuggestion>
    decreases s.len(),
{
    if s.len() == 0 {
        s
    } else {
        let t = rank_sorted(s.drop_last());
        t.insert(insert_position(t, s.last().rank), s.last())
    }
}

proof fn lemma_insert_position(s: Seq<HistoryInputSuggestion>, rank: u64, p: int)
    requires
        0 <= p <= s.len(),
        forall|k: int| 0 <= k < p ==> s[k].rank <= rank,
        p == s.len() || s[p].rank > rank,
    ensures
        insert_position(s, rank) == p,
    decreases p,
{
    if p > 0 {
        let t = s.drop_first();
        assert forall|k: int| 0 <= k < p - 1 implies t[k].rank <= rank by {
            assert(t[k] == s[k + 1]);
        }
        if p < s.len() {
            assert(t[p - 1] == s[p]);
        }
        lemma_insert_position(t, rank, p - 1);
    }
}

/// Sorts suggestions by rank, keeping the given order among equal ranks.
pub fn sort_suggestions_by_rank(suggestions: Vec<HistoryInputSuggestion>) -> (r: Vec<
    HistoryInputSuggestion,
>)
    ensures
        r@ == rank_sorted(suggestions@),
        is_stable_sort_of(r@, suggestions@),
{
    let ghost inp = suggestions@;
    let mut out: Vec<HistoryInputSuggestion> = Vec::new();
    let ghost mut perm: Seq<int> = Seq::empty();
    let mut i: usize = 0;
    while i < suggestions.len()
        invariant
            i <= suggestions.len(),
            inp == suggestions@,
            out@.len() == i,
            perm.len() == i,
            forall|k: int| 0 <= k < perm.len() ==> 0 <= #[trigger] perm[k] < i,
            forall|k: int, l: int| 0 <= k < l < perm.len() ==> perm[k] != perm[l],
            forall|k: int| 0 <= k < out@.len() ==> out@[k] == inp[#[trigger] perm[k]],
            sorted_by_rank(out@),
            forall|k: int, l: int|
                0 <= k < l < out@.len() && out@[k].rank == out@[l].rank ==> perm[k] < perm[l],
            out@ == rank_sorted(inp.take(i as int)),
        decreases suggestions.len() - i,
    {
        let item = suggestions[i].duplicate();
        let rank = suggestions[i].rank;
        let mut p: usize = 0;
        while p < out.len() && out[p].rank <= rank
            invariant
                p <= out@.len(),
                forall|k: int| 0 <= k < p ==> out@[k].rank <= rank,
            decreases out@.len() - p,
        {
            p += 1;
        }
        let ghost old_out = out@;
        let ghost old_perm = perm;
        assert(item == inp[i as int]);
        proof {
            lemma_insert_position(old_out, rank, p as int);
            assert(inp.take(i + 1).drop_last() =~= inp.take(i as int));
        }
        out.insert(p, item);
        proof {
            perm = old_perm.insert(p as int, i as int);
            assert forall|k: int, l: int| 0 <= k <= l < out@.len() implies out@[k].rank
                <= out@[l].rank by {
                if k < p && l > p {
                    assert(old_out[k].rank <= rank);
                    assert(old_out[l - 1].rank > rank || p >= old_out.len());
                    if p < old_out.len() {
                        assert(old_out[p as int].rank > rank);
                        assert(old_out[p as int].rank <= old_out[l - 1].rank);
                    }
                } else if k == p && l > p {
                    if p < old_out.len() {
                        assert(old_out[p as int].rank > rank);
                        assert(old_out[p as int].rank <= old_out[l - 1].rank);
                    }
                } else if k < p && l == p {
                    assert(old_out[k].rank <= rank);
                } else if k > p {
                    assert(old_out[k - 1].rank <= old_out[l - 1].rank);
                } else if k < l {
                    assert(old_out[k].rank <= old_out[l].rank);
                }
            }
            assert forall|k: int, l: int|
                0 <= k < l < out@.len() && out@[k].rank == out@[l].rank implies perm[k]
                < perm[l] by {
                if k < p && l > p {
                    assert(old_out[k].rank <= rank);
                    if p < old_out.len() {
                        assert(old_out[p as int].rank > rank);
                        assert(old_out[p as int].rank <= old_out[l - 1].rank);
                    }
                } else if k == p {
                    if p < old_out.len() {
                        assert(old_out[p as int].rank > rank);
                        assert(old_out[p as int].rank <= old_out[l - 1].rank);
                    }
                } else if l == p {
                    assert(old_perm[k] < i);
                } else if k > p {
                    assert(perm[k] == old_perm[k - 1]);
                    assert(perm[l] == old_perm[l - 1]);
                } else if l < p {
                } else {
                    assert(perm[l] == old_perm[l - 1]);
                }
            }
            assert forall|k: int, l: int| 0 <= k < l < perm.len() implies perm[k]
                != perm[l] by {
                if k < p && l > p {
                    assert(perm[l] == old_perm[l - 1]);
                } else if k == p {
                    assert(perm[l] == old_perm[l - 1]);
                    assert(old_perm[l - 1] < i);
                } else if l == p {
                    assert(old_perm[k] < i);
                } else if k > p {
                    assert(perm[k] == old_perm[k - 1]);
                    assert(perm[l] == old_perm[l - 1]);
                }
            }
            assert forall|k: int| 0 <= k < out@.len() implies out@[k] == inp[
                #[trigger] perm[k]] by {
                if k < p {
                } else if k == p {
                } else {
                    assert(out@[k] == old_out[k - 1]);
                    assert(perm[k] == old_perm[k - 1]);
                }
            }
            assert forall|k: int| 0 <= k < perm.len() implies 0 <= #[trigger] perm[k] < i + 1 by {
                if k > p {
                    assert(perm[k] == old_perm[k - 1]);
                }
            }
        }
        i += 1;
    }
    assert(stable_sort_witness(out@, inp, perm));
    assert(inp.take(inp.len() as int) =~= inp);
    out
}

/// Keeps only the last occurrence of each suggestion (same type and text).
pub fn keep_latest_suggestions(suggestions: Vec<HistoryInputSuggestion>) -> (r: Vec<
    HistoryInputSuggestion,
>)
    ensures
        r@ == keep_latest(suggestions@),
{
    let ghost s = suggestions@;
    let mut rest = suggestions;
    let mut kept_rev: Vec<HistoryInputSuggestion> = Vec::new();
    let mut seen: Vec<HistoryInputSuggestion> = Vec::new();
    assert(s.skip(s.len() as int) =~= Seq::<HistoryInputSuggestion>::empty());
    while rest.len() > 0
        invariant
            rest@ == s.take(rest@.len() as int),
            rest@.len() <= s.len(),
            kept_rev@ == keep_latest(s.skip(rest@.len() as int)).reverse(),
            forall|x: HistoryInputSuggestion|
                has_entry(seen@, x) <==> has_entry(s.skip(rest@.len() as int), x),
        decreases rest@.len(),
    {
        let ghost n = rest@.len() as int;
        let item = rest.pop().unwrap();
        let ghost suffix = s.skip(n);
        let ghost longer = s.skip(n - 1);
        assert(longer.drop_first() =~= suffix);
        assert(longer[0] == item);
        assert(rest@ =~= s.take(n - 1));
        let mut found = false;
        let mut j: usize = 0;
        while j < seen.len()
            invariant
                j <= seen@.len(),
                found <==> exists|k: int| 0 <= k < j && same_entry(#[trigger] seen@[k], item),
            decreases seen@.len() - j,
        {
            if seen[j].is_ai_query == item.is_ai_query && seen[j].text == item.text {
                found = true;
            }
            j += 1;
        }
        assert(found <==> has_entry(seen@, item));
        if found {
            assert(keep_latest(longer) == keep_latest(suffix));
        } else {
            assert(keep_latest(longer) == seq![item] + keep_latest(suffix));
            assert((seq![item] + keep_latest(suffix)).reverse() =~= keep_latest(
                suffix,
            ).reverse().push(item));
            kept_rev.push(item.duplicate());
        }
        let ghost old_seen = seen@;
        seen.push(item);
        assert forall|x: HistoryInputSuggestion| has_entry(seen@, x) <==> has_entry(longer, x) by {
            if has_entry(seen@, x) {
                let j = choose|j: int| 0 <= j < seen@.len() && same_entry(#[trigger] seen@[j], x);
                if j < old_seen.len() {
                    assert(same_entry(old_seen[j], x));
                    assert(has_entry(old_seen, x));
                    assert(has_entry(suffix, x));
                    let k = choose|k: int| 0 <= k < suffix.len() && same_entry(#[trigger] suffix[k], x);
                    assert(longer[k + 1] == suffix[k]);
                } else {
                    assert(same_entry(longer[0], x));
                }
            }
            if has_entry(longer, x) {
                let k = choose|k: int| 0 <= k < longer.len() && same_entry(#[trigger] longer[k], x);
                if k == 0 {
                    assert(same_entry(seen@[old_seen.len() as int], x));
                } else {
                    assert(suffix[k - 1] == longer[k]);
                    assert(has_entry(suffix, x));
                    assert(has_entry(old_seen, x));
                    let j = choose|j: int| 0 <= j < old_seen.len() && same_entry(#[trigger] old_seen[j], x);
                    assert(seen@[j] == old_seen[j]);
                }
            }
        }
    }
    assert(s.skip(0) =~= s);
    let mut r: Vec<HistoryInputSuggestion> = Vec::new();
    let ghost full = keep_latest(s);
    assert(full.skip(0) =~= full);
    while kept_rev.len() > 0
        invariant
            r@.len() + kept_rev@.len() == full.len(),
            r@ == full.take(r@.len() as int),
            kept_rev@ == full.skip(r@.len() as int).reverse(),
        decreases kept_rev@.len(),
    {
        let ghost k = r@.len() as int;
        let item = kept_rev.pop().unwrap();
        assert(item == full[k]);
        r.push(item);
        assert(r@ =~= full.take(k + 1));
        assert(kept_rev@ =~= full.skip(k + 1).reverse());
    }
    assert(r@ =~= full);
    r
}

/// Sorts suggestions by rank (stably) and then drops repeats, keeping for each command or AI
/// query its last occurrence.
pub fn sort_and_dedupe_suggestions(suggestions: Vec<HistoryInputSuggestion>) -> (r: Vec<
    HistoryInputSuggestion,
>)
    ensures
        r@ == keep_latest(rank_sorted(suggestions@)),
        exists|sorted: Seq<HistoryInputSuggestion>|
            is_stable_sort_of(sorted, suggestions@) && r@ == keep_latest(sorted),
{
    let sorted = sort_suggestions_by_rank(suggestions);
    keep_latest_suggestions(sorted)
}

/// The up-arrow suggestions for a session's commands: commands run by the agent are left out,
/// and nothing is offered when the config excludes commands.
pub fn up_arrow_suggestions(commands: Vec<HistoryCommand>, config: UpArrowHistoryConfig) -> (r: Vec<
    HistoryInputSuggestion,
>)
    ensures
        !config.include_commands ==> r@.len() == 0,
        config.include_commands ==> r@ == keep_latest(rank_sorted(human_commands(commands@))),
        config.include_commands ==> exists|sorted: Seq<HistoryInputSuggestion>|
            is_stable_sort_of(sorted, human_commands(commands@)) && r@ == keep_latest(sorted),
{
    if !config.include_commands {
        return Vec::new();
    }
    let mut suggestions: Vec<HistoryInputSuggestion> = Vec::new();
    let mut i: usize = 0;
    while i < commands.len()
        invariant
            i <= commands.len(),
            suggestions@ == human_commands(commands@.take(i as int)),
        decreases commands.len() - i,
    {
        assert(commands@.take(i + 1).drop_last() =~= commands@.take(i as int));
        if !commands[i].is_agent_executed {
            suggestions.push(
                HistoryInputSuggestion {
                    text: commands[i].command.clone(),
                    is_ai_query: false,
                    rank: commands[i].rank,
                },
            );
        }
        i += 1;
    }
    assert(commands@.take(commands.len() as int) =~= commands@);
    sort_and_dedupe_suggestions(suggestions)
}

/// The suggestions made from the commands that a person (not the agent) ran, in order.
pub open spec fn human_commands(c: Seq<HistoryCommand>) -> Seq<HistoryInputSuggestion>
    decreases c.len(),
{
    if c.len() == 0 {
        Seq::empty()
    } else {
        let rest = human_commands(c.drop_last());
        let last = c.last();
        if last.is_agent_executed {
            rest
        } else {
            rest.push(
                HistoryInputSuggestion { text: last.command, is_ai_query: false, rank: last.rank },
            )
        }
    }
}

/// Whether suggestion `x` is made from command `c`: a shell command (not an AI query) with
/// the command's text and rank.
pub open spec fn made_from(x: HistoryInputSuggestion, c: HistoryCommand) -> bool {
    !x.is_ai_query && x.text == c.command && x.rank == c.rank
}

/// The up-arrow candidates are exactly the commands a person ran: each candidate is made
/// from a command not run by the agent, and each such command gives a candidate; none is
/// an AI query.
pub proof fn law_human_commands(c: Seq<HistoryCommand>)
    ensures
        forall|k: int| 0 <= k < human_commands(c).len() ==> exists|i: int|
            0 <= i < c.len() && !c[i].is_agent_executed && made_from(#[trigger] human_commands(c)[k], c[i]),
        forall|i: int| 0 <= i < c.len() && !(#[trigger] c[i]).is_agent_executed ==> exists|k: int|
            0 <= k < human_commands(c).len() && made_from(human_commands(c)[k], c[i]),
        human_commands(c).len() <= c.len(),
    decreases c.len(),
{
    if c.len() > 0 {
        let p = c.drop_last();
        law_human_commands(p);
        let h = human_commands(c);
        let hp = human_commands(p);
        assert forall|k: int| 0 <= k < h.len() implies exists|i: int|
            0 <= i < c.len() && !c[i].is_agent_executed && made_from(#[trigger] h[k], c[i]) by {
            if k < hp.len() {
                assert(h[k] == hp[k]);
                let i = choose|i: int| 0 <= i < p.len() && !p[i].is_agent_executed && made_from(hp[k], p[i]);
                assert(c[i] == p[i]);
            } else {
                assert(made_from(h[k], c[c.len() - 1]));
            }
        }
        assert forall|i: int| 0 <= i < c.len() && !(#[trigger] c[i]).is_agent_executed implies exists|k: int|
            0 <= k < h.len() && made_from(h[k], c[i]) by {
            if i < c.len() - 1 {
                assert(c[i] == p[i]);
                assert(!p[i].is_agent_executed);
                let k = choose|k: int| 0 <= k < hp.len() && made_from(hp[k], p[i]);
                assert(h[k] == hp[k]);
            } else {
                assert(made_from(h[hp.len() as int], c[i]));
            }
        }
    }
}

/// Every entry of `s` is still offered after dropping repeats, and nothing else is.
pub proof fn law_keep_latest_keeps_every_entry(s: Seq<HistoryInputSuggestion>, x: HistoryInputSuggestion)
    ensures
        has_entry(keep_latest(s), x) <==> has_entry(s, x),
    decreases s.len(),
{
    if s.len() > 0 {
        let t = s.drop_first();
        let rest = keep_latest(t);
        law_keep_latest_keeps_every_entry(t, x);
        law_keep_latest_keeps_every_entry(t, s[0]);
        if has_entry(s, x) {
            let j = choose|j: int| 0 <= j < s.len() && same_entry(#[trigger] s[j], x);
            let r = keep_latest(s);
            if j == 0 && !has_entry(t, s[0]) {
                assert(r[0] == s[0]);
                assert(same_entry(r[0], x));
            } else {
                if j > 0 {
                    assert(t[j - 1] == s[j]);
                    assert(same_entry(t[j - 1], x));
                } else {
                    let k = choose|k: int| 0 <= k < t.len() && same_entry(#[trigger] t[k], s[0]);
                    assert(same_entry(t[k], x));
                }
                assert(has_entry(t, x));
                assert(has_entry(rest, x));
                let k = choose|k: int| 0 <= k < rest.len() && same_entry(#[trigger] rest[k], x);
                if !has_entry(t, s[0]) {
                    assert(r[k + 1] == rest[k]);
                    assert(same_entry(r[k + 1], x));
                } else {
                    assert(same_entry(r[k], x));
                }
            }
        }
        if has_entry(keep_latest(s), x) {
            let r = keep_latest(s);
            let j = choose|j: int| 0 <= j < r.len() && same_entry(#[trigger] r[j], x);
            if !has_entry(t, s[0]) {
                if j == 0 {
                    assert(same_entry(s[0], x));
                } else {
                    assert(r[j] == rest[j - 1]);
                    assert(has_entry(rest, x));
                    let k = choose|k: int| 0 <= k < t.len() && same_entry(#[trigger] t[k], x);
                    assert(s[k + 1] == t[k]);
                }
            } else {
                assert(has_entry(rest, x));
                let k = choose|k: int| 0 <= k < t.len() && same_entry(#[trigger] t[k], x);
                assert(s[k + 1] == t[k]);
            }
        }
    }
}

/// After dropping repeats, no command or AI query appears twice.
pub proof fn law_keep_latest_no_repeats(s: Seq<HistoryInputSuggestion>)
    ensures
        forall|i: int, j: int|
            0 <= i < j < keep_latest(s).len() ==> !same_entry(
                #[trigger] keep_latest(s)[i],
                #[trigger] keep_latest(s)[j],
            ),
    decreases s.len(),
{
    if s.len() > 0 {
        let t = s.drop_first();
        let rest = keep_latest(t);
        law_keep_latest_no_repeats(t);
        if !has_entry(t, s[0]) {
            let r = keep_latest(s);
            law_keep_latest_keeps_every_entry(t, s[0]);
            assert forall|i: int, j: int| 0 <= i < j < r.len() implies !same_entry(
                #[trigger] r[i],
                #[trigger] r[j],
            ) by {
                if i == 0 {
                    assert(r[j] == rest[j - 1]);
                    if same_entry(r[i], r[j]) {
                        assert(same_entry(rest[j - 1], s[0]));
                        assert(has_entry(rest, s[0]));
                    }
                } else {
                    assert(r[i] == rest[i - 1]);
                    assert(r[j] == rest[j - 1]);
                }
            }
        }
    }
}

/// Dropping repeats keeps the remaining suggestions in their order, so an ordering by rank
/// survives it.
pub proof fn law_keep_latest_keeps_rank_order(s: Seq<HistoryInputSuggestion>)
    requires
        sorted_by_rank(s),
    ensures
        sorted_by_rank(keep_latest(s)),
        forall|i: int| 0 <= i < keep_latest(s).len() ==> exists|j: int| 0 <= j < s.len() && #[trigger] keep_latest(s)[i] == s[j],
    decreases s.len(),
{
    if s.len() > 0 {
        let t = s.drop_first();
        let rest = keep_latest(t);
        assert(sorted_by_rank(t)) by {
            assert forall|i: int, j: int| 0 <= i <= j < t.len() implies t[i].rank <= t[j].rank by {
                assert(t[i] == s[i + 1]);
                assert(t[j] == s[j + 1]);
            }
        }
        law_keep_latest_keeps_rank_order(t);
        let r = keep_latest(s);
        assert forall|i: int| 0 <= i < r.len() implies exists|j: int| 0 <= j < s.len() && #[trigger] r[i] == s[j] by {
            if !has_entry(t, s[0]) && i == 0 {
                assert(r[0] == s[0]);
            } else {
                let ri = if !has_entry(t, s[0]) { i - 1 } else { i };
                assert(r[i] == rest[ri]);
                let k = choose|k: int| 0 <= k < t.len() && rest[ri] == t[k];
                assert(r[i] == s[k + 1]);
            }
        }
        if !has_entry(t, s[0]) {
            assert forall|i: int, j: int| 0 <= i <= j < r.len() implies r[i].rank <= r[j].rank by {
                if i == 0 && j > 0 {
                    assert(r[j] == rest[j - 1]);
                    let k = choose|k: int| 0 <= k < t.len() && rest[j - 1] == t[k];
                    assert(s[0].rank <= s[k + 1].rank);
                } else if i > 0 {
                    assert(r[i] == rest[i - 1]);
                    assert(r[j] == rest[j - 1]);
                }
            }
        }
    }
}

} // verus!
