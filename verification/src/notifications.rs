//! Desktop notifications sent when a block finishes or needs the user: which
//! trigger fired, the discovery-banner copy, and the title/body text.
use vstd::prelude::*;

use crate::text::{
    back_skip_spaces_from, chars_of, lemma_back_skip_spaces_bounds, lemma_skip_spaces_bounds,
    skip_spaces_from, slice_chars, string_of, trim_end, trim_start,
};

verus! {

/// The title and body of a notification about a block.
#[derive(Debug, Clone)]
pub struct BlockNotification {
    pub title: String,
    pub body: String,
}

/// The reason for sending (or offering to send) a notification.
#[derive(Copy, Clone, Debug)]
pub enum NotificationsTrigger {
    /// A long-running command ended; whether it succeeded and how long it ran.
    LongRunningCommand(bool, std::time::Duration),
    /// An agent task ended; whether it succeeded.
    AgentTaskCompleted(bool),
    NeedsAttention,
    PasswordPrompt,
}

/// `s` with every newline replaced by the two characters `\n`.
pub open spec fn escape_newlines(s: Seq<char>) -> Seq<char>
    decreases s.len(),
{
    if s.len() == 0 {
        s
    } else {
        escape_newlines(s.drop_last()) + if s.last() == '\n' {
            seq!['\\', 'n']
        } else {
            seq![s.last()]
        }
    }
}

/// `s` with every newline replaced by a space.
pub open spec fn flatten_newlines(s: Seq<char>) -> Seq<char> {
    Seq::new(s.len(), |i: int| if s[i] == '\n' { ' ' } else { s[i] })
}

/// The part of the title after the quoted command.
pub open spec fn title_suffix(trigger: NotificationsTrigger, duration_text: Seq<char>) -> Seq<
    char,
> {
    match trigger {
        NotificationsTrigger::LongRunningCommand(ok, _) => " "@ + (if ok {
            "finished"@
        } else {
            "failed"@
        }) + " after "@ + duration_text + "s"@,
        NotificationsTrigger::AgentTaskCompleted(ok) => if ok {
            " finished"@
        } else {
            " failed"@
        },
        NotificationsTrigger::NeedsAttention => " blocked"@,
        NotificationsTrigger::PasswordPrompt => " is waiting for a password"@,
    }
}

/// The part of the body before the command output.
pub open spec fn body_prefix(trigger: NotificationsTrigger) -> Seq<char> {
    match trigger {
        NotificationsTrigger::AgentTaskCompleted(false) => "Error: "@,
        NotificationsTrigger::NeedsAttention => ""@,
        _ => "Latest output: "@,
    }
}

/// Characters of the title left for the command, quotes excluded.
pub open spec fn title_room(max_title: nat, suffix: Seq<char>) -> int {
    max_title - suffix.len() - 2
}

/// Characters of the body left for the output.
pub open spec fn body_room(max_body: nat, prefix: Seq<char>) -> int {
    max_body - prefix.len()
}

/// The quoted command: whole when it fits, else its first `room - 3` characters and `...`.
pub open spec fn title_prefix(command: Seq<char>, room: int) -> Seq<char> {
    let base = trim_start(escape_newlines(command));
    if room >= base.len() {
        "'"@ + trim_end(base) + "'"@
    } else {
        "'"@ + trim_end(base.take(room - 3)) + "...'"@
    }
}

/// The output shown: whole when it fits, else `...` and its last `room - 3` characters.
pub open spec fn body_suffix(output: Seq<char>, room: int) -> Seq<char> {
    let base = trim_end(flatten_newlines(output));
    if room >= base.len() {
        trim_start(base)
    } else {
        "..."@ + trim_start(base.skip(base.len() - (room - 3)))
    }
}

/// Whether the limits leave room for the text around the command and the output: the
/// title must hold the suffix and the quotes, the body the prefix; and when the command or
/// the output has to be cut there must be room for the ellipsis.
pub open spec fn notification_fits(
    trigger: NotificationsTrigger,
    duration_text: Seq<char>,
    command: Seq<char>,
    output: Seq<char>,
    max_title: nat,
    max_body: nat,
) -> bool {
    let troom = title_room(max_title, title_suffix(trigger, duration_text));
    let broom = body_room(max_body, body_prefix(trigger));
    &&& troom >= 0
    &&& broom >= 0
    &&& troom >= trim_start(escape_newlines(command)).len() || troom >= 3
    &&& broom >= trim_end(flatten_newlines(output)).len() || broom >= 3
}

fn chars_of_lit(s: &str) -> (v: Vec<char>)
    ensures
        v@ == s@,
{
    chars_of(s)
}

/// Appends `src` to `dst`.
fn push_all(dst: &mut Vec<char>, src: &Vec<char>)
    ensures
        final(dst)@ == old(dst)@ + src@,
{
    let mut copy = src.clone();
    assert(copy@ =~= src@);
    dst.append(&mut copy);
}

fn escape_newlines_exec(v: &Vec<char>) -> (r: Vec<char>)
    ensures
        r@ == escape_newlines(v@),
{
    let mut r: Vec<char> = Vec::new();
    let mut i: usize = 0;
    while i < v.len()
        invariant
            i <= v.len(),
            r@ == escape_newlines(v@.take(i as int)),
        decreases v.len() - i,
    {
        assert(v@.take(i + 1).drop_last() =~= v@.take(i as int));
        if v[i] == '\n' {
            r.push('\\');
            r.push('n');
            assert(r@ =~= escape_newlines(v@.take(i as int)) + seq!['\\', 'n']);
        } else {
            r.push(v[i]);
            assert(r@ =~= escape_newlines(v@.take(i as int)) + seq![v@[i as int]]);
        }
        i += 1;
    }
    assert(v@.take(v.len() as int) =~= v@);
    r
}

fn flatten_newlines_exec(v: &Vec<char>) -> (r: Vec<char>)
    ensures
        r@ == flatten_newlines(v@),
{
    let mut r: Vec<char> = Vec::new();
    let mut i: usize = 0;
    while i < v.len()
        invariant
            i <= v.len(),
            r@.len() == i,
            forall|k: int| 0 <= k < i ==> r@[k] == flatten_newlines(v@)[k],
        decreases v.len() - i,
    {
        if v[i] == '\n' {
            r.push(' ');
        } else {
            r.push(v[i]);
        }
        i += 1;
    }
    assert(r@ =~= flatten_newlines(v@));
    r
}

fn trim_start_exec(v: &Vec<char>) -> (r: Vec<char>)
    ensures
        r@ == trim_start(v@),
{
    let s = skip_spaces_from(v, 0);
    proof {
        lemma_skip_spaces_bounds(v@, 0);
    }
    slice_chars(v, s, v.len())
}

fn trim_end_exec(v: &Vec<char>) -> (r: Vec<char>)
    ensures
        r@ == trim_end(v@),
{
    let e = back_skip_spaces_from(v, v.len());
    proof {
        lemma_back_skip_spaces_bounds(v@, v@.len() as int);
    }
    slice_chars(v, 0, e)
}

impl NotificationsTrigger {
    /// The sentence the notifications discovery banner shows for this trigger.
    pub fn discovery_banner_copy(&self) -> (r: &'static str)
        ensures
            r@ == (match *self {
                NotificationsTrigger::LongRunningCommand(..) =>
                    "Warp can notify you when long-running commands finish."@,
                NotificationsTrigger::AgentTaskCompleted(..) =>
                    "Warp can notify you when an agent finishes responding."@,
                NotificationsTrigger::NeedsAttention =>
                    "Warp can notify you when a command or agent needs your attention."@,
                NotificationsTrigger::PasswordPrompt =>
                    "Warp can notify you when you're prompted to enter a password."@,
            }),
    {
        match self {
            NotificationsTrigger::LongRunningCommand(..) => {
                "Warp can notify you when long-running commands finish."
            },
            NotificationsTrigger::AgentTaskCompleted(..) => {
                "Warp can notify you when an agent finishes responding."
            },
            NotificationsTrigger::NeedsAttention => {
                "Warp can notify you when a command or agent needs your attention."
            },
            NotificationsTrigger::PasswordPrompt => {
                "Warp can notify you when you're prompted to enter a password."
            },
        }
    }

    fn title_suffix_exec(&self, duration_text: &str) -> (r: Vec<char>)
        ensures
            r@ == title_suffix(*self, duration_text@),
    {
        match self {
            NotificationsTrigger::LongRunningCommand(ok, _) => {
                let mut r = chars_of_lit(" ");
                let status = if *ok {
                    chars_of_lit("finished")
                } else {
                    chars_of_lit("failed")
                };
                push_all(&mut r, &status);
                push_all(&mut r, &chars_of_lit(" after "));
                push_all(&mut r, &chars_of(duration_text));
                push_all(&mut r, &chars_of_lit("s"));
                r
            },
            NotificationsTrigger::AgentTaskCompleted(ok) => {
                if *ok {
                    chars_of_lit(" finished")
                } else {
                    chars_of_lit(" failed")
                }
            },
            NotificationsTrigger::NeedsAttention => chars_of_lit(" blocked"),
            NotificationsTrigger::PasswordPrompt => chars_of_lit(" is waiting for a password"),
        }
    }

    fn body_prefix_exec(&self) -> (r: Vec<char>)
        ensures
            r@ == body_prefix(*self),
    {
        match self {
            NotificationsTrigger::AgentTaskCompleted(false) => chars_of_lit("Error: "),
            NotificationsTrigger::NeedsAttention => chars_of_lit(""),
            _ => chars_of_lit("Latest output: "),
        }
    }

    /// Whether the limits leave room for a notification about `command` and
    /// `output` (see `notification_fits`); `create_notification_content` needs it.
    pub fn notification_content_fits(
        &self,
        command: &str,
        output: &str,
        duration_text: &str,
        max_title_len: usize,
        max_body_len: usize,
    ) -> (r: bool)
        ensures
            r == notification_fits(
                *self,
                duration_text@,
                command@,
                output@,
                max_title_len as nat,
                max_body_len as nat,
            ),
    {
        let suffix = self.title_suffix_exec(duration_text);
        let prefix = self.body_prefix_exec();
        if max_title_len < 2 || suffix.len() > max_title_len - 2 || prefix.len() > max_body_len {
            return false;
        }
        let title_room_left = max_title_len - suffix.len() - 2;
        let body_room_left = max_body_len - prefix.len();
        let base_command = trim_start_exec(&escape_newlines_exec(&chars_of(command)));
        let base_output = trim_end_exec(&flatten_newlines_exec(&chars_of(output)));
        (title_room_left >= base_command.len() || title_room_left >= 3) && (body_room_left
            >= base_output.len() || body_room_left >= 3)
    }

    /// The notification for a block: the title is the (possibly cut) command in quotes
    /// followed by what happened; the body is the (possibly cut) end of the output after a
    /// trigger-specific prefix. Newlines are replaced, and whitespace at the ends trimmed.
    ///
    /// `duration_text` is how the block's duration reads for a long-running command;
    /// `max_title_len` and `max_body_len` are the platform's limits in characters.
    pub fn create_notification_content(
        &self,
        command: String,
        output: String,
        duration_text: &str,
        max_title_len: usize,
        max_body_len: usize,
    ) -> (r: BlockNotification)
        requires
            notification_fits(
                *self,
                duration_text@,
                command@,
                output@,
                max_title_len as nat,
                max_body_len as nat,
            ),
        ensures
            r.title@ == title_prefix(
                command@,
                title_room(max_title_len as nat, title_suffix(*self, duration_text@)),
            ) + title_suffix(*self, duration_text@),
            r.body@ == body_prefix(*self) + body_suffix(
                output@,
                body_room(max_body_len as nat, body_prefix(*self)),
            ),
    {
        let suffix = self.title_suffix_exec(duration_text);
        let prefix = self.body_prefix_exec();

        let command_chars = escape_newlines_exec(&chars_of(command.as_str()));
        let output_chars = flatten_newlines_exec(&chars_of(output.as_str()));

        // Title.
        let base_command = trim_start_exec(&command_chars);
        let title_room_left = max_title_len - suffix.len() - 2;
        let mut title = chars_of_lit("'");
        if title_room_left >= base_command.len() {
            push_all(&mut title, &trim_end_exec(&base_command));
            push_all(&mut title, &chars_of_lit("'"));
        } else {
            let shown = slice_chars(&base_command, 0, title_room_left - 3);
            assert(shown@ =~= base_command@.take(title_room_left - 3));
            push_all(&mut title, &trim_end_exec(&shown));
            push_all(&mut title, &chars_of_lit("...'"));
        }
        push_all(&mut title, &suffix);

        // Body.
        let base_output = trim_end_exec(&output_chars);
        let body_room_left = max_body_len - prefix.len();
        let mut body = prefix.clone();
        assert(body@ =~= prefix@);
        if body_room_left >= base_output.len() {
            push_all(&mut body, &trim_start_exec(&base_output));
        } else {
            let start = base_output.len() - (body_room_left - 3);
            let shown = slice_chars(&base_output, start, base_output.len());
            assert(shown@ =~= base_output@.skip(start as int));
            push_all(&mut body, &chars_of_lit("..."));
            push_all(&mut body, &trim_start_exec(&shown));
        }
        BlockNotification { title: string_of(title.as_slice()), body: string_of(body.as_slice()) }
    }
}

proof fn lemma_trim_lengths(s: Seq<char>)
    ensures
        trim_start(s).len() <= s.len(),
        trim_end(s).len() <= s.len(),
{
    crate::text::lemma_skip_spaces_bounds(s, 0);
    lemma_back_skip_spaces_bounds(s, s.len() as int);
}

/// A notification never exceeds the platform's limits: the title holds at most
/// `max_title_len` characters and the body at most `max_body_len`.
pub proof fn law_notification_within_limits(
    trigger: NotificationsTrigger,
    duration_text: Seq<char>,
    command: Seq<char>,
    output: Seq<char>,
    max_title: nat,
    max_body: nat,
)
    requires
        notification_fits(trigger, duration_text, command, output, max_title, max_body),
    ensures
        (title_prefix(command, title_room(max_title, title_suffix(trigger, duration_text)))
            + title_suffix(trigger, duration_text)).len() <= max_title,
        (body_prefix(trigger) + body_suffix(output, body_room(max_body, body_prefix(trigger)))).len()
            <= max_body,
{
    let suffix = title_suffix(trigger, duration_text);
    let room = title_room(max_title, suffix);
    let base = trim_start(escape_newlines(command));
    lemma_trim_lengths(escape_newlines(command));
    lemma_trim_lengths(base);
    lemma_trim_lengths(base.take(room - 3));
    reveal_strlit("'");
    reveal_strlit("...'");
    reveal_strlit("...");
    let prefix = body_prefix(trigger);
    let broom = body_room(max_body, prefix);
    let out = trim_end(flatten_newlines(output));
    lemma_trim_lengths(flatten_newlines(output));
    lemma_trim_lengths(out);
    if broom < out.len() {
        lemma_trim_lengths(out.skip(out.len() - (broom - 3)));
    }
}

/// Whether `s` has no newline.
pub open spec fn no_newline(s: Seq<char>) -> bool {
    forall|i: int| 0 <= i < s.len() ==> #[trigger] s[i] != '\n'
}

proof fn lemma_escape_newlines_no_newline(s: Seq<char>)
    ensures
        no_newline(escape_newlines(s)),
    decreases s.len(),
{
    if s.len() > 0 {
        lemma_escape_newlines_no_newline(s.drop_last());
        let a = escape_newlines(s.drop_last());
        let b = if s.last() == '\n' {
            seq!['\\', 'n']
        } else {
            seq![s.last()]
        };
        assert forall|i: int| 0 <= i < (a + b).len() implies #[trigger] (a + b)[i] != '\n' by {
            if i >= a.len() {
                assert((a + b)[i] == b[i - a.len()]);
            }
        }
    }
}

proof fn lemma_no_newline_subrange(s: Seq<char>, i: int, j: int)
    requires
        no_newline(s),
        0 <= i <= j <= s.len(),
    ensures
        no_newline(s.subrange(i, j)),
{
    assert forall|k: int| 0 <= k < j - i implies #[trigger] s.subrange(i, j)[k] != '\n' by {
        assert(s.subrange(i, j)[k] == s[i + k]);
    }
}

proof fn lemma_no_newline_concat(a: Seq<char>, b: Seq<char>)
    requires
        no_newline(a),
        no_newline(b),
    ensures
        no_newline(a + b),
{
    assert forall|k: int| 0 <= k < (a + b).len() implies #[trigger] (a + b)[k] != '\n' by {
        if k < a.len() {
            assert((a + b)[k] == a[k]);
        } else {
            assert((a + b)[k] == b[k - a.len()]);
        }
    }
}

/// A notification is always one line each: its title (for a duration text without a
/// newline) and its body hold no newline, whatever the command and the output hold; and
/// the title starts with the quote that opens the command. (As for
/// `create_notification_content`, the limits leave room for the text around them.)
pub proof fn law_notification_single_line(
    trigger: NotificationsTrigger,
    duration_text: Seq<char>,
    command: Seq<char>,
    output: Seq<char>,
    max_title: nat,
    max_body: nat,
)
    requires
        no_newline(duration_text),
        notification_fits(trigger, duration_text, command, output, max_title, max_body),
    ensures
        ({
            let suffix = title_suffix(trigger, duration_text);
            let title = title_prefix(command, title_room(max_title, suffix)) + suffix;
            let body = body_prefix(trigger) + body_suffix(output, body_room(max_body, body_prefix(trigger)));
            &&& no_newline(title)
            &&& no_newline(body)
            &&& title.len() > 0 && title[0] == '\''
        }),
{
    reveal_strlit("'");
    reveal_strlit("...'");
    reveal_strlit("...");
    reveal_strlit(" ");
    reveal_strlit("s");
    reveal_strlit(" after ");
    reveal_strlit("finished");
    reveal_strlit("failed");
    reveal_strlit(" finished");
    reveal_strlit(" failed");
    reveal_strlit(" blocked");
    reveal_strlit(" is waiting for a password");
    reveal_strlit("Error: ");
    reveal_strlit("");
    reveal_strlit("Latest output: ");
    let suffix = title_suffix(trigger, duration_text);
    let room = title_room(max_title, suffix);
    let e = escape_newlines(command);
    lemma_escape_newlines_no_newline(command);
    crate::text::lemma_skip_spaces_bounds(e, 0);
    let base = trim_start(e);
    lemma_no_newline_subrange(e, crate::text::skip_spaces(e, 0), e.len() as int);
    if room < base.len() {
        lemma_no_newline_subrange(base, 0, room - 3);
        assert(base.take(room - 3) =~= base.subrange(0, room - 3));
    }
    assert(no_newline("'"@));
    assert(no_newline("...'"@));
    // The suffix has no newline.
    match trigger {
        NotificationsTrigger::LongRunningCommand(ok, _) => {
            let w = if ok {
                "finished"@
            } else {
                "failed"@
            };
            assert(no_newline(" "@));
            assert(no_newline(w));
            assert(no_newline(" after "@));
            assert(no_newline("s"@));
            lemma_no_newline_concat(" "@, w);
            lemma_no_newline_concat(" "@ + w, " after "@);
            lemma_no_newline_concat(" "@ + w + " after "@, duration_text);
            lemma_no_newline_concat(" "@ + w + " after "@ + duration_text, "s"@);
        },
        _ => {
            assert(no_newline(suffix));
        },
    }
    assert(no_newline(suffix));
    let head = title_prefix(command, room);
    if room >= base.len() {
        let t = trim_end(base);
        crate::text::lemma_back_skip_spaces_bounds(base, base.len() as int);
        lemma_no_newline_subrange(base, 0, crate::text::back_skip_spaces(base, base.len() as int));
        lemma_no_newline_concat("'"@, t);
        lemma_no_newline_concat("'"@ + t, "'"@);
        assert(head == "'"@ + t + "'"@);
    } else {
        let cut = base.take(room - 3);
        let t = trim_end(cut);
        crate::text::lemma_back_skip_spaces_bounds(cut, cut.len() as int);
        lemma_no_newline_subrange(cut, 0, crate::text::back_skip_spaces(cut, cut.len() as int));
        lemma_no_newline_concat("'"@, t);
        lemma_no_newline_concat("'"@ + t, "...'"@);
        assert(head == "'"@ + t + "...'"@);
    }
    lemma_no_newline_concat(head, suffix);
    // The body.
    let prefix = body_prefix(trigger);
    assert(no_newline(prefix));
    let broom = body_room(max_body, prefix);
    let f = flatten_newlines(output);
    assert(no_newline(f));
    crate::text::lemma_back_skip_spaces_bounds(f, f.len() as int);
    let out = trim_end(f);
    lemma_no_newline_subrange(f, 0, crate::text::back_skip_spaces(f, f.len() as int));
    let tail = body_suffix(output, broom);
    if broom >= out.len() {
        crate::text::lemma_skip_spaces_bounds(out, 0);
        lemma_no_newline_subrange(out, crate::text::skip_spaces(out, 0), out.len() as int);
    } else {
        let k = out.len() - (broom - 3);
        let last = out.skip(k);
        lemma_no_newline_subrange(out, k, out.len() as int);
        assert(last =~= out.subrange(k, out.len() as int));
        assert(no_newline(last));
        crate::text::lemma_skip_spaces_bounds(last, 0);
        lemma_no_newline_subrange(last, crate::text::skip_spaces(last, 0), last.len() as int);
        lemma_no_newline_concat("..."@, trim_start(last));
    }
    assert(no_newline(tail));
    lemma_no_newline_concat(prefix, tail);
}

proof fn lemma_escape_newlines_identity(s: Seq<char>)
    requires
        no_newline(s),
    ensures
        escape_newlines(s) == s,
    decreases s.len(),
{
    if s.len() > 0 {
        assert(no_newline(s.drop_last()));
        lemma_escape_newlines_identity(s.drop_last());
        assert(s.last() != '\n');
        assert(s.drop_last() + seq![s.last()] =~= s);
    }
}

/// Whether `s` neither starts nor ends with whitespace.
pub open spec fn no_outer_space(s: Seq<char>) -> bool {
    s.len() > 0 ==> !crate::text::is_space(s[0]) && !crate::text::is_space(s.last())
}

proof fn lemma_trim_identity(s: Seq<char>)
    requires
        no_outer_space(s),
    ensures
        trim_start(s) == s,
        trim_end(s) == s,
{
    crate::text::lemma_skip_spaces_bounds(s, 0);
    crate::text::lemma_back_skip_spaces_bounds(s, s.len() as int);
    if s.len() > 0 {
        if crate::text::skip_spaces(s, 0) > 0 {
            assert(crate::text::is_space(s[0]));
        }
        if crate::text::back_skip_spaces(s, s.len() as int) < s.len() {
            assert(crate::text::is_space(s[s.len() - 1]));
        }
    }
    assert(trim_start(s) =~= s);
    assert(trim_end(s) =~= s);
}

/// What fits is shown whole: a one-line command with no whitespace at its ends that fits
/// in the title appears in it exactly, in quotes, before the suffix; and such an output
/// that fits in the body follows the body's prefix exactly.
pub proof fn law_notification_shows_what_fits(
    trigger: NotificationsTrigger,
    duration_text: Seq<char>,
    command: Seq<char>,
    output: Seq<char>,
    max_title: nat,
    max_body: nat,
)
    ensures
        no_newline(command) && no_outer_space(command) && command.len() <= title_room(
            max_title,
            title_suffix(trigger, duration_text),
        ) ==> title_prefix(command, title_room(max_title, title_suffix(trigger, duration_text)))
            + title_suffix(trigger, duration_text) == "'"@ + command + "'"@ + title_suffix(
            trigger,
            duration_text,
        ),
        no_newline(output) && no_outer_space(output) && output.len() <= body_room(
            max_body,
            body_prefix(trigger),
        ) ==> body_prefix(trigger) + body_suffix(output, body_room(max_body, body_prefix(trigger)))
            == body_prefix(trigger) + output,
{
    if no_newline(command) && no_outer_space(command) {
        lemma_escape_newlines_identity(command);
        lemma_trim_identity(command);
    }
    if no_newline(output) && no_outer_space(output) {
        assert(flatten_newlines(output) =~= output);
        lemma_trim_identity(output);
    }
}

/// Whether `s` ends with `t`.
pub open spec fn ends_with(s: Seq<char>, t: Seq<char>) -> bool {
    s.len() >= t.len() && s.skip(s.len() - t.len()) == t
}

/// The title of a notification tells how the block ended, whatever the command and the
/// limits: a successful agent task's title ends with " finished" and a failed one's with
/// " failed"; a long-running command's ends with "finished after <duration>s" or
/// "failed after <duration>s"; a blocked block's with " blocked", and a password prompt's
/// with " is waiting for a password". The body leads with "Error: " for a failed agent
/// task, with nothing for a blocked block, and with "Latest output: " otherwise.
pub proof fn law_notification_title_tells_outcome(
    trigger: NotificationsTrigger,
    duration_text: Seq<char>,
    command: Seq<char>,
    max_title: nat,
)
    ensures
        ({
            let title = title_prefix(command, title_room(max_title, title_suffix(trigger, duration_text)))
                + title_suffix(trigger, duration_text);
            &&& trigger == NotificationsTrigger::AgentTaskCompleted(true) ==> ends_with(title, " finished"@)
            &&& trigger == NotificationsTrigger::AgentTaskCompleted(false) ==> ends_with(title, " failed"@)
            &&& trigger matches NotificationsTrigger::LongRunningCommand(ok, _) ==> ends_with(
                title,
                (if ok {
                    "finished after "@
                } else {
                    "failed after "@
                }) + duration_text + "s"@,
            )
            &&& trigger is NeedsAttention ==> ends_with(title, " blocked"@)
            &&& trigger is PasswordPrompt ==> ends_with(title, " is waiting for a password"@)
            &&& body_prefix(trigger) == if trigger == NotificationsTrigger::AgentTaskCompleted(false) {
                "Error: "@
            } else if trigger is NeedsAttention {
                ""@
            } else {
                "Latest output: "@
            }
        }),
{
    reveal_strlit(" finished");
    reveal_strlit(" failed");
    reveal_strlit("finished");
    reveal_strlit("failed");
    reveal_strlit("finished after ");
    reveal_strlit("failed after ");
    reveal_strlit(" after ");
    reveal_strlit(" ");
    reveal_strlit("s");
    reveal_strlit(" blocked");
    reveal_strlit(" is waiting for a password");
    reveal_strlit("Error: ");
    reveal_strlit("");
    reveal_strlit("Latest output: ");
    let suffix = title_suffix(trigger, duration_text);
    let head = title_prefix(command, title_room(max_title, suffix));
    let title = head + suffix;
    assert(title.skip(title.len() - suffix.len()) =~= suffix);
    match trigger {
        NotificationsTrigger::LongRunningCommand(ok, _) => {
            let tail = (if ok {
                "finished after "@
            } else {
                "failed after "@
            }) + duration_text + "s"@;
            assert(suffix =~= " "@ + tail);
            assert(title.skip(title.len() - tail.len()) =~= tail);
        },
        _ => {},
    }
}

/// The toast text of a notification sent by a plugin: the title, a colon, a
/// space and the body; the body alone where there is no title.
pub fn pluggable_notification_message(title: Option<&str>, body: &str) -> (r: String)
    ensures
        r@ == (match title {
            Some(t) => t@ + ": "@ + body@,
            None => body@,
        }),
{
    match title {
        Some(t) => {
            let mut m = t.to_owned();
            let sep = ": ";
            proof {
                reveal_strlit(": ");
            }
            m.append(sep);
            m.append(body);
            m
        },
        None => body.to_owned(),
    }
}

} // verus!
