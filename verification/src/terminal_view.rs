//! Vocabulary of the terminal view: prompt suggestions, prompt positions,
//! context-menu actions, resizing in shared sessions and command words.
use vstd::prelude::*;

use crate::context_chips::ContextChipKind;
use crate::text::{
    chars_of, decimal_digits, decimal_text, first_word_split, first_word_split_chars, string_of,
};

verus! {

/// A prompt suggestion offered for Agent Mode.
#[derive(Debug, Clone, Default, PartialEq, Eq)]
pub struct PromptSuggestion {
    pub id: String,
    /// The text shown on the chip; the prompt itself is shown when this is `None`.
    pub label: Option<String>,
    /// The prompt given to Agent Mode.
    pub prompt: String,
    /// For a static suggestion, the name of its kind.
    pub static_prompt_suggestion_name: Option<String>,
    /// Whether accepting the suggestion starts a new conversation.
    pub should_start_new_conversation: bool,
}

impl PromptSuggestion {
    /// The label when one was given, otherwise the prompt.
    pub fn label(&self) -> (r: &String)
        ensures
            *r == (match self.label {
                Some(l) => l,
                None => self.prompt,
            }),
    {
        match &self.label {
            Some(l) => l,
            None => &self.prompt,
        }
    }

    pub fn is_static_prompt_suggestion(&self) -> (r: bool)
        ensures
            r == self.static_prompt_suggestion_name is Some,
    {
        self.static_prompt_suggestion_name.is_some()
    }
}

/// The outcome of asking for an Agent Mode prompt suggestion.
#[derive(Debug, Clone)]
pub enum AgentModePromptSuggestion {
    Success(PromptSuggestion),
    /// No suggestion was made.
    NoSuggestion,
    Error,
}

/// Why the terminal is resized, as far as it decides the number of rows and
/// columns: the pane's own size, or a size reported in a shared session.
#[derive(Debug, Clone, Copy, PartialEq, Eq, Structural)]
pub enum SizeUpdateRowsAndColumns {
    /// The size that the pane itself has room for.
    Natural,
    /// The sharer of the session reported its size.
    SharerSizeChanged { num_rows: usize, num_cols: usize },
    /// A viewer of the session reported its size.
    ViewerSizeReported { num_rows: usize, num_cols: usize },
}

/// The rows and columns of the terminal after a resize. A viewer of a shared
/// session takes the larger of its own size and the sharer's in each
/// dimension; a size reported by a viewer is taken as it is, but never below
/// one row and one column; otherwise the pane's own size is kept.
pub fn rows_and_columns_for_size_update(
    reason: SizeUpdateRowsAndColumns,
    natural_rows: usize,
    natural_cols: usize,
) -> (r: (usize, usize))
    ensures
        r == (match reason {
            SizeUpdateRowsAndColumns::SharerSizeChanged { num_rows, num_cols } => (
                if num_rows >= natural_rows { num_rows } else { natural_rows },
                if num_cols >= natural_cols { num_cols } else { natural_cols },
            ),
            SizeUpdateRowsAndColumns::ViewerSizeReported { num_rows, num_cols } => (
                if num_rows >= 1 { num_rows } else { 1 },
                if num_cols >= 1 { num_cols } else { 1 },
            ),
            SizeUpdateRowsAndColumns::Natural => (natural_rows, natural_cols),
        }),
{
    match reason {
        SizeUpdateRowsAndColumns::SharerSizeChanged { num_rows, num_cols } => {
            let rows = if num_rows >= natural_rows { num_rows } else { natural_rows };
            let cols = if num_cols >= natural_cols { num_cols } else { natural_cols };
            (rows, cols)
        },
        SizeUpdateRowsAndColumns::ViewerSizeReported { num_rows, num_cols } => {
            let rows = if num_rows >= 1 { num_rows } else { 1 };
            let cols = if num_cols >= 1 { num_cols } else { 1 };
            (rows, cols)
        },
        SizeUpdateRowsAndColumns::Natural => (natural_rows, natural_cols),
    }
}

/// Whether an editor is the source of an action.
#[derive(Debug, Clone, Copy)]
pub enum TerminalEditor {
    Yes,
    No,
}

/// When a block counts as visible.
#[derive(Debug, Clone, Copy)]
pub enum BlockVisibilityMode {
    /// Its top is on screen.
    TopOfBlockVisible,
    /// Its bottom is on screen.
    BottomOfBlockVisible,
}

/// The index of a block in the block list.
#[derive(Debug, Clone, Copy, PartialEq, Eq, Structural)]
pub struct BlockIndex(pub usize);

/// Where a prompt is: in a block, or in the input.
#[derive(Debug, Copy, Clone)]
pub enum PromptPosition {
    Block(BlockIndex),
    Input,
}

impl PromptPosition {
    /// The block the prompt belongs to: the block at the index for a prompt in
    /// a block, the active block for the prompt of the input.
    pub fn block<'a, B>(&self, blocks: &'a Vec<B>, active_block: &'a B) -> (r: Option<&'a B>)
        ensures
            match *self {
                PromptPosition::Block(BlockIndex(i)) => if i < blocks.len() {
                    r matches Some(b) && *b == blocks@[i as int]
                } else {
                    r is None
                },
                PromptPosition::Input => r == Some(active_block),
            },
    {
        match self {
            PromptPosition::Block(BlockIndex(i)) => {
                if *i < blocks.len() {
                    Some(&blocks[*i])
                } else {
                    None
                }
            },
            PromptPosition::Input => Some(active_block),
        }
    }
}

/// A part of a prompt that can be copied.
#[derive(Debug, Clone)]
pub enum PromptPart {
    EntirePrompt,
    CondaContext,
    Pwd,
    GitBranch,
    VirtualEnv,
    ContextChip(ContextChipKind),
}

/// What a block records of the prompt it ran under.
#[derive(Debug, Clone, PartialEq, Eq)]
pub struct BlockPromptParts {
    pub git_branch: Option<String>,
    pub conda_env: Option<String>,
    pub pwd: Option<String>,
    pub virtual_env_short_name: Option<String>,
}

/// `o`'s text, or the empty text.
pub open spec fn text_or_empty(o: Option<String>) -> Seq<char> {
    match o {
        Some(t) => t@,
        None => Seq::empty(),
    }
}

/// The text that copying `part` of the prompt at `position` puts on the
/// clipboard. `entire_prompt` is the whole prompt there; `block` what the
/// prompt's block recorded, if there is one; `chip_value` the latest value of
/// the chip for the input's prompt. A part the block did not record copies as
/// empty text, as does a chip of a block's prompt.
pub open spec fn prompt_copy_text(
    position: PromptPosition,
    part: PromptPart,
    entire_prompt: Seq<char>,
    block: Option<BlockPromptParts>,
    chip_value: Option<String>,
) -> Seq<char> {
    match part {
        PromptPart::EntirePrompt => entire_prompt,
        PromptPart::GitBranch => match block {
            Some(b) => text_or_empty(b.git_branch),
            None => Seq::empty(),
        },
        PromptPart::CondaContext => match block {
            Some(b) => text_or_empty(b.conda_env),
            None => Seq::empty(),
        },
        PromptPart::Pwd => match block {
            Some(b) => text_or_empty(b.pwd),
            None => Seq::empty(),
        },
        PromptPart::VirtualEnv => match block {
            Some(b) => text_or_empty(b.virtual_env_short_name),
            None => Seq::empty(),
        },
        PromptPart::ContextChip(_) => match position {
            PromptPosition::Input => text_or_empty(chip_value),
            PromptPosition::Block(_) => Seq::empty(),
        },
    }
}

fn owned_or_empty(o: Option<String>) -> (r: String)
    ensures
        r@ == text_or_empty(o),
{
    match o {
        Some(t) => t,
        None => String::new(),
    }
}

/// The text to copy for a part of a prompt (see `prompt_copy_text`).
pub fn prompt_text_to_copy(
    position: PromptPosition,
    part: &PromptPart,
    entire_prompt: String,
    block: Option<BlockPromptParts>,
    chip_value: Option<String>,
) -> (r: String)
    ensures
        r@ == prompt_copy_text(position, *part, entire_prompt@, block, chip_value),
{
    match part {
        PromptPart::EntirePrompt => entire_prompt,
        PromptPart::GitBranch => match block {
            Some(b) => owned_or_empty(b.git_branch),
            None => String::new(),
        },
        PromptPart::CondaContext => match block {
            Some(b) => owned_or_empty(b.conda_env),
            None => String::new(),
        },
        PromptPart::Pwd => match block {
            Some(b) => owned_or_empty(b.pwd),
            None => String::new(),
        },
        PromptPart::VirtualEnv => match block {
            Some(b) => owned_or_empty(b.virtual_env_short_name),
            None => String::new(),
        },
        PromptPart::ContextChip(_) => match position {
            PromptPosition::Input => owned_or_empty(chip_value),
            PromptPosition::Block(_) => String::new(),
        },
    }
}

/// Actions of the block-list context menu.
#[derive(Clone)]
pub enum ContextMenuAction {
    InsertSelectedText,
    CopySelectedText,
    CopyUrl { url_content: String },
    CopyBlocks,
    CopyBlockCommands,
    CopyBlockOutputs,
    CopyBlockFilteredOutputs,
    FindWithinBlock,
    ScrollToBottomOfBlock,
    ScrollToTopOfBlock,
    CopyPrompt { position: PromptPosition, part: PromptPart },
    CopyRprompt,
    EditPrompt,
}

/// Actions of the input context menu.
#[derive(Clone)]
pub enum InputContextMenuAction {
    CutSelectedText,
    CopySelectedText,
    SelectAll,
    Paste,
    ShowCommandSearch,
    ToggleInputHintText,
}

/// The text a prompt position is logged as.
pub open spec fn prompt_position_text(p: PromptPosition) -> Seq<char> {
    match p {
        PromptPosition::Block(BlockIndex(i)) => "Block(BlockIndex("@ + decimal_digits(i as nat)
            + "))"@,
        PromptPosition::Input => "Input"@,
    }
}

/// The text a prompt part is logged as.
pub open spec fn prompt_part_text(p: PromptPart) -> Seq<char> {
    match p {
        PromptPart::EntirePrompt => "EntirePrompt"@,
        PromptPart::CondaContext => "CondaContext"@,
        PromptPart::Pwd => "Pwd"@,
        PromptPart::GitBranch => "GitBranch"@,
        PromptPart::VirtualEnv => "VirtualEnv"@,
        PromptPart::ContextChip(ContextChipKind::GithubPullRequest) =>
            "ContextChip(GithubPullRequest)"@,
    }
}

/// The text a context-menu action is logged as. A copied URL is not shown, since URLs come
/// from command output.
pub open spec fn context_menu_action_text(a: ContextMenuAction) -> Seq<char> {
    match a {
        ContextMenuAction::InsertSelectedText => "InsertSelectedText"@,
        ContextMenuAction::CopySelectedText => "CopySelectedText"@,
        ContextMenuAction::CopyBlocks => "CopyBlocks"@,
        ContextMenuAction::CopyBlockCommands => "CopyBlockCommands"@,
        ContextMenuAction::CopyBlockOutputs => "CopyBlockOutputs"@,
        ContextMenuAction::FindWithinBlock => "FindWithinBlock"@,
        ContextMenuAction::ScrollToBottomOfBlock => "ScrollToBottomOfBlock"@,
        ContextMenuAction::ScrollToTopOfBlock => "ScrollToTopOfBlock"@,
        ContextMenuAction::CopyPrompt { position, part } => "CopyPrompt { position: "@
            + prompt_position_text(position) + ", part: "@ + prompt_part_text(part) + " }"@,
        ContextMenuAction::CopyRprompt => "CopyRprompt"@,
        ContextMenuAction::CopyUrl { .. } => "CopyUrl"@,
        ContextMenuAction::EditPrompt => "EditPrompt"@,
        ContextMenuAction::CopyBlockFilteredOutputs => "CopyBlockFilteredOutput"@,
    }
}

/// The text an input context-menu action is logged as.
pub open spec fn input_context_menu_action_text(a: InputContextMenuAction) -> Seq<char> {
    match a {
        InputContextMenuAction::CutSelectedText => "CutSelectedText"@,
        InputContextMenuAction::CopySelectedText => "CopySelectedText"@,
        InputContextMenuAction::SelectAll => "SelectAll"@,
        InputContextMenuAction::Paste => "Paste"@,
        InputContextMenuAction::ShowCommandSearch => "CommandSearch"@,
        InputContextMenuAction::ToggleInputHintText => "ToggleInputHintText"@,
    }
}

fn owned(s: &str) -> (r: String)
    ensures
        r@ == s@,
{
    s.to_owned()
}

fn concat(a: String, b: String) -> (r: String)
    ensures
        r@ == a@ + b@,
{
    let mut a = a;
    a.append(b.as_str());
    a
}

impl PromptPosition {
    /// The text this position is logged as.
    pub fn debug_text(&self) -> (r: String)
        ensures
            r@ == prompt_position_text(*self),
    {
        match self {
            PromptPosition::Block(BlockIndex(i)) => {
                let n = decimal_text(*i as u64);
                concat(concat(owned("Block(BlockIndex("), n), owned("))"))
            },
            PromptPosition::Input => owned("Input"),
        }
    }
}

impl PromptPart {
    /// The text this part is logged as.
    pub fn debug_text(&self) -> (r: String)
        ensures
            r@ == prompt_part_text(*self),
    {
        match self {
            PromptPart::EntirePrompt => owned("EntirePrompt"),
            PromptPart::CondaContext => owned("CondaContext"),
            PromptPart::Pwd => owned("Pwd"),
            PromptPart::GitBranch => owned("GitBranch"),
            PromptPart::VirtualEnv => owned("VirtualEnv"),
            PromptPart::ContextChip(ContextChipKind::GithubPullRequest) => owned(
                "ContextChip(GithubPullRequest)",
            ),
        }
    }
}

impl ContextMenuAction {
    /// The text this action is logged as; a copied URL is left out.
    pub fn debug_text(&self) -> (r: String)
        ensures
            r@ == context_menu_action_text(*self),
    {
        match self {
            ContextMenuAction::InsertSelectedText => owned("InsertSelectedText"),
            ContextMenuAction::CopySelectedText => owned("CopySelectedText"),
            ContextMenuAction::CopyBlocks => owned("CopyBlocks"),
            ContextMenuAction::CopyBlockCommands => owned("CopyBlockCommands"),
            ContextMenuAction::CopyBlockOutputs => owned("CopyBlockOutputs"),
            ContextMenuAction::FindWithinBlock => owned("FindWithinBlock"),
            ContextMenuAction::ScrollToBottomOfBlock => owned("ScrollToBottomOfBlock"),
            ContextMenuAction::ScrollToTopOfBlock => owned("ScrollToTopOfBlock"),
            ContextMenuAction::CopyPrompt { position, part } => {
                let t = concat(owned("CopyPrompt { position: "), position.debug_text());
                let t = concat(concat(t, owned(", part: ")), part.debug_text());
                concat(t, owned(" }"))
            },
            ContextMenuAction::CopyRprompt => owned("CopyRprompt"),
            ContextMenuAction::CopyUrl { .. } => owned("CopyUrl"),
            ContextMenuAction::EditPrompt => owned("EditPrompt"),
            ContextMenuAction::CopyBlockFilteredOutputs => owned("CopyBlockFilteredOutput"),
        }
    }
}

impl InputContextMenuAction {
    /// The text this action is logged as.
    pub fn debug_text(&self) -> (r: String)
        ensures
            r@ == input_context_menu_action_text(*self),
    {
        match self {
            InputContextMenuAction::CutSelectedText => owned("CutSelectedText"),
            InputContextMenuAction::CopySelectedText => owned("CopySelectedText"),
            InputContextMenuAction::SelectAll => owned("SelectAll"),
            InputContextMenuAction::Paste => owned("Paste"),
            InputContextMenuAction::ShowCommandSearch => owned("CommandSearch"),
            InputContextMenuAction::ToggleInputHintText => owned("ToggleInputHintText"),
        }
    }
}

/// Actions on a passive code diff from the input editor.
#[derive(Clone, Debug)]
pub enum CodeDiffAction {
    Accept,
    Reject,
    Edit,
    ScrollToExpand,
}

/// The view the left panel is switched to.
#[derive(Clone, Copy, Debug)]
pub enum LeftPanelTargetView {
    FileTree,
    WarpDrive,
}

/// The parts of a block that can be copied.
#[derive(Copy, Clone)]
pub enum BlockEntity {
    Command,
    Output,
    FilteredOutput,
    CommandAndOutput,
}

impl BlockEntity {
    /// The name under which the part is reported.
    pub fn as_str(&self) -> (r: &'static str)
        ensures
            r@ == (match *self {
                BlockEntity::Command => "Command"@,
                BlockEntity::Output => "Output"@,
                BlockEntity::CommandAndOutput => "Both"@,
                BlockEntity::FilteredOutput => "FilteredOutput"@,
            }),
    {
        match self {
            BlockEntity::Command => "Command",
            BlockEntity::Output => "Output",
            BlockEntity::CommandAndOutput => "Both",
            BlockEntity::FilteredOutput => "FilteredOutput",
        }
    }
}

/// Where content sent to a CLI agent went.
#[derive(Clone, Copy, Debug, PartialEq, Eq)]
pub enum CliAgentRouting {
    /// Into the CLI agent's rich input.
    RichInput,
    /// Straight to the PTY.
    Pty,
}

/// The state of a terminal view, from the command it runs and the last one it finished.
#[derive(Copy, Clone, Debug, PartialEq)]
pub enum TerminalViewState {
    /// The last command failed.
    Errored,
    /// A command is running.
    LongRunning,
    /// Nothing is running and the last command, if any, succeeded.
    Normal,
}

/// Whether this is the active session of its pane group.
#[derive(Debug, Clone, Copy, PartialEq, Eq)]
pub enum ActiveSessionState {
    Active,
    Inactive,
}

/// Whether entering a subshell (or warpifying an SSH host) should be remembered.
#[derive(Clone, Debug)]
pub enum RememberForWarpification {
    /// Remember the command, which is carried so it can be stored.
    RememberSubshellCommand(String),
    RememberSSHHost(String),
    DoNotRememberSubshellCommand,
    DoNotRememberSSHHost,
}

impl RememberForWarpification {
    pub fn as_bool(&self) -> (r: bool)
        ensures
            r == (self is RememberSubshellCommand || self is RememberSSHHost),
    {
        match self {
            RememberForWarpification::RememberSubshellCommand(_) => true,
            RememberForWarpification::RememberSSHHost(_) => true,
            RememberForWarpification::DoNotRememberSubshellCommand => false,
            RememberForWarpification::DoNotRememberSSHHost => false,
        }
    }

    pub fn is_ssh(&self) -> (r: bool)
        ensures
            r == (self is RememberSSHHost || self is DoNotRememberSSHHost),
    {
        match self {
            RememberForWarpification::RememberSSHHost(_) => true,
            RememberForWarpification::DoNotRememberSSHHost => true,
            RememberForWarpification::RememberSubshellCommand(_) => false,
            RememberForWarpification::DoNotRememberSubshellCommand => false,
        }
    }
}

/// The first word of a command and everything after it; `None` for a blank command.
pub fn command_first_word_and_suffix(command: &str) -> (r: Option<(String, String)>)
    ensures
        match r {
            None => first_word_split(command@) is None,
            Some((w, rest)) => first_word_split(command@) == Some((w@, rest@)),
        },
{
    let v = chars_of(command);
    match first_word_split_chars(&v) {
        None => None,
        Some((w, rest)) => Some((string_of(w.as_slice()), string_of(rest.as_slice()))),
    }
}

/// `s` with each line break (`\r\n` or `\n`) replaced by `\r`.
pub open spec fn linefeeds_to_cr(s: Seq<char>) -> Seq<char>
    decreases s.len(),
{
    if s.len() == 0 {
        s
    } else if s.len() >= 2 && s[0] == '\r' && s[1] == '\n' {
        seq!['\r'] + linefeeds_to_cr(s.skip(2))
    } else if s[0] == '\n' {
        seq!['\r'] + linefeeds_to_cr(s.skip(1))
    } else {
        seq![s[0]] + linefeeds_to_cr(s.skip(1))
    }
}

/// Pasted text never reaches the pty with a line feed: after the line breaks are made
/// carriage returns no `\n` is left, and text without a line feed passes unchanged.
pub proof fn law_linefeeds_to_cr(s: Seq<char>)
    ensures
        forall|i: int| 0 <= i < linefeeds_to_cr(s).len() ==> #[trigger] linefeeds_to_cr(s)[i] != '\n',
        (forall|i: int| 0 <= i < s.len() ==> #[trigger] s[i] != '\n') ==> linefeeds_to_cr(s) == s,
        linefeeds_to_cr(s).len() <= s.len(),
    decreases s.len(),
{
    if s.len() > 0 {
        let k: int = if s.len() >= 2 && s[0] == '\r' && s[1] == '\n' {
            2
        } else {
            1
        };
        law_linefeeds_to_cr(s.skip(k));
        let head = if k == 2 || s[0] == '\n' {
            seq!['\r']
        } else {
            seq![s[0]]
        };
        let rest = linefeeds_to_cr(s.skip(k));
        assert(linefeeds_to_cr(s) == head + rest);
        assert forall|i: int| 0 <= i < (head + rest).len() implies #[trigger] (head + rest)[i] != '\n' by {
            if i >= 1 {
                assert((head + rest)[i] == rest[i - 1]);
            }
        }
        if forall|i: int| 0 <= i < s.len() ==> #[trigger] s[i] != '\n' {
            if k == 2 {
                assert(s[1] != '\n');
            }
            assert forall|i: int| 0 <= i < s.skip(1).len() implies #[trigger] s.skip(1)[i] != '\n' by {
                assert(s.skip(1)[i] == s[i + 1]);
            }
            assert(seq![s[0]] + s.skip(1) =~= s);
        }
    }
}

/// Copying a part of a prompt copies what it names: the entire prompt; for the block's
/// branch, conda environment, directory and virtual environment what the block recorded of
/// exactly that (empty text without a block); and a chip's value only for the input's
/// prompt.
pub proof fn law_prompt_copy_text_names_part(
    position: PromptPosition,
    entire_prompt: Seq<char>,
    b: BlockPromptParts,
    chip: ContextChipKind,
    chip_value: Option<String>,
)
    ensures
        prompt_copy_text(position, PromptPart::EntirePrompt, entire_prompt, Some(b), chip_value)
            == entire_prompt,
        prompt_copy_text(position, PromptPart::GitBranch, entire_prompt, Some(b), chip_value)
            == text_or_empty(b.git_branch),
        prompt_copy_text(position, PromptPart::CondaContext, entire_prompt, Some(b), chip_value)
            == text_or_empty(b.conda_env),
        prompt_copy_text(position, PromptPart::Pwd, entire_prompt, Some(b), chip_value) == text_or_empty(
            b.pwd,
        ),
        prompt_copy_text(position, PromptPart::VirtualEnv, entire_prompt, Some(b), chip_value)
            == text_or_empty(b.virtual_env_short_name),
        prompt_copy_text(position, PromptPart::Pwd, entire_prompt, None, chip_value).len() == 0,
        prompt_copy_text(PromptPosition::Input, PromptPart::ContextChip(chip), entire_prompt, Some(b), chip_value)
            == text_or_empty(chip_value),
        position is Block ==> prompt_copy_text(
            position,
            PromptPart::ContextChip(chip),
            entire_prompt,
            Some(b),
            chip_value,
        ).len() == 0,
{
}

/// Calls `regex::Regex::new` on the pattern `\r?\n` and `Regex::replace_all` with
/// the replacement `\r`. The pattern compiles; the replacement has no group
/// references, and `replace_all` replaces the leftmost-first, non-overlapping
/// matches, so each `\r\n`, and each other `\n`, becomes `\r`.
#[verifier::external_body]
fn replace_linefeeds(text: &str) -> (r: String)
    ensures
        r@ == linefeeds_to_cr(text@),
{
    match regex::Regex::new("\r?\n") {
        Ok(re) => re.replace_all(text, "\r").into_owned(),
        Err(_) => text.to_owned(),
    }
}

/// Where pasted text goes.
#[derive(Debug, Clone, PartialEq, Eq)]
pub enum PasteTarget {
    /// Into the input editor, as it is.
    Input(String),
    /// To the terminal's process, as this text.
    Pty(String),
}

/// The start and end markers of a bracketed paste.
pub open spec fn bracketed_paste(s: Seq<char>) -> Seq<char> {
    seq!['\x1b', '[', '2', '0', '0', '~'] + s + seq!['\x1b', '[', '2', '0', '1', '~']
}

/// Where `text` is pasted: into the input when the input box is visible and
/// its editor is focused or the shell has started (a shell still starting may
/// be waiting for input itself); otherwise to the process, with line breaks
/// made carriage returns (programs without bracketed paste would read a line
/// feed as ctrl-j), inside bracketed-paste markers when the program asked for
/// them.
pub fn paste_target(
    text: String,
    input_box_visible: bool,
    editor_focused: bool,
    block_list_bootstrapped: bool,
    needs_bracketed_paste: bool,
) -> (r: PasteTarget)
    ensures
        input_box_visible && (editor_focused || block_list_bootstrapped) ==> r == PasteTarget::Input(
            text,
        ),
        !(input_box_visible && (editor_focused || block_list_bootstrapped)) ==> (r matches PasteTarget::Pty(p)
            && p@ == if needs_bracketed_paste {
            bracketed_paste(linefeeds_to_cr(text@))
        } else {
            linefeeds_to_cr(text@)
        }),
{
    if input_box_visible && (editor_focused || block_list_bootstrapped) {
        return PasteTarget::Input(text);
    }
    let copied = replace_linefeeds(text.as_str());
    if needs_bracketed_paste {
        let mut wrapped = "\x1b[200~".to_owned();
        proof {
            reveal_strlit("\x1b[200~");
            reveal_strlit("\x1b[201~");
        }
        wrapped.append(copied.as_str());
        wrapped.append("\x1b[201~");
        PasteTarget::Pty(wrapped)
    } else {
        PasteTarget::Pty(copied)
    }
}

} // verus!
