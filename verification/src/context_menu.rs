//! The entries of the terminal view's context menus: which entries a menu
//! shows, in which order, what each does, its key shortcut and whether it is
//! disabled. What the menus show depends on facts about the view that the
//! caller gathers: where the menu was opened, the highlighted link, the block
//! selection, the prompt and the pane.
use vstd::prelude::*;

use crate::terminal_view::{
    BlockIndex, ContextMenuAction, InputContextMenuAction, PromptPart, PromptPosition,
};

verus! {

/// The text of a menu entry.
#[derive(Debug, Clone, Copy, PartialEq, Eq, Structural)]
pub enum MenuLabel {
    Cut,
    Copy,
    SelectAll,
    Paste,
    CommandSearch,
    /// Hides the input hint text when it is shown, shows it otherwise.
    InputHintText { shown: bool },
    CopyUrl,
    CopyPath,
    ShowInFinder,
    ShowContainingFolder,
    OpenInWarp,
    OpenInEditor,
    InsertIntoInput,
    CopyCommands { plural: bool },
    CopyOutput,
    CopyFilteredOutput,
    FindWithinBlocks { plural: bool },
    ScrollToTopOfBlocks { plural: bool },
    ScrollToBottomOfBlocks { plural: bool },
    CopyPrompt,
    CopyRightPrompt,
    CopyWorkingDirectory,
    CopyGitBranch,
    EditPrompt,
    SplitPaneRight,
    SplitPaneLeft,
    SplitPaneDown,
    SplitPaneUp,
    /// Maximizes the pane, or restores it when it is maximized; the UI kit
    /// words it.
    ToggleMaximizePane { is_maximized: bool },
    ClosePane,
}

/// The words of a label; `None` where the UI kit words it.
pub open spec fn menu_label_text(label: MenuLabel) -> Option<Seq<char>> {
    match label {
        MenuLabel::Cut => Some("Cut"@),
        MenuLabel::Copy => Some("Copy"@),
        MenuLabel::SelectAll => Some("Select all"@),
        MenuLabel::Paste => Some("Paste"@),
        MenuLabel::CommandSearch => Some("Command search"@),
        MenuLabel::InputHintText { shown } => Some(
            if shown {
                "Hide input hint text"@
            } else {
                "Show input hint text"@
            },
        ),
        MenuLabel::CopyUrl => Some("Copy URL"@),
        MenuLabel::CopyPath => Some("Copy path"@),
        MenuLabel::ShowInFinder => Some("Show in Finder"@),
        MenuLabel::ShowContainingFolder => Some("Show containing folder"@),
        MenuLabel::OpenInWarp => Some("Open in Warp"@),
        MenuLabel::OpenInEditor => Some("Open in editor"@),
        MenuLabel::InsertIntoInput => Some("Insert into input"@),
        MenuLabel::CopyCommands { plural } => Some(
            if plural {
                "Copy commands"@
            } else {
                "Copy command"@
            },
        ),
        MenuLabel::CopyOutput => Some("Copy output"@),
        MenuLabel::CopyFilteredOutput => Some("Copy filtered output"@),
        MenuLabel::FindWithinBlocks { plural } => Some(
            if plural {
                "Find within blocks"@
            } else {
                "Find within block"@
            },
        ),
        MenuLabel::ScrollToTopOfBlocks { plural } => Some(
            if plural {
                "Scroll to top of blocks"@
            } else {
                "Scroll to top of block"@
            },
        ),
        MenuLabel::ScrollToBottomOfBlocks { plural } => Some(
            if plural {
                "Scroll to bottom of blocks"@
            } else {
                "Scroll to bottom of block"@
            },
        ),
        MenuLabel::CopyPrompt => Some("Copy prompt"@),
        MenuLabel::CopyRightPrompt => Some("Copy right prompt"@),
        MenuLabel::CopyWorkingDirectory => Some("Copy working directory"@),
        MenuLabel::CopyGitBranch => Some("Copy git branch"@),
        MenuLabel::EditPrompt => Some("Edit prompt"@),
        MenuLabel::SplitPaneRight => Some("Split pane right"@),
        MenuLabel::SplitPaneLeft => Some("Split pane left"@),
        MenuLabel::SplitPaneDown => Some("Split pane down"@),
        MenuLabel::SplitPaneUp => Some("Split pane up"@),
        MenuLabel::ToggleMaximizePane { .. } => None,
        MenuLabel::ClosePane => Some("Close pane"@),
    }
}

/// A key binding whose keys are shown beside an entry.
#[derive(Debug, Clone, Copy, PartialEq, Eq, Structural)]
pub enum KeyBindingName {
    TerminalCopy,
    TerminalCopyCommands,
    TerminalCopyOutputs,
    TerminalFind,
    ScrollToTopOfSelectedBlock,
    ScrollToBottomOfSelectedBlock,
    EditorSelectAll,
    TerminalPaste,
    ShowCommandSearch,
    PaneAddRight,
    PaneAddLeft,
    PaneAddDown,
    PaneAddUp,
    ToggleMaximizePane,
}

/// The name a key binding is registered under.
pub open spec fn key_binding_name(b: KeyBindingName) -> Seq<char> {
    match b {
        KeyBindingName::TerminalCopy => "terminal:copy"@,
        KeyBindingName::TerminalCopyCommands => "terminal:copy_commands"@,
        KeyBindingName::TerminalCopyOutputs => "terminal:copy_outputs"@,
        KeyBindingName::TerminalFind => "terminal:find"@,
        KeyBindingName::ScrollToTopOfSelectedBlock => "terminal:scroll_to_top_of_selected_block"@,
        KeyBindingName::ScrollToBottomOfSelectedBlock =>
            "terminal:scroll_to_bottom_of_selected_block"@,
        KeyBindingName::EditorSelectAll => "editor_view:select_all"@,
        KeyBindingName::TerminalPaste => "terminal:paste"@,
        KeyBindingName::ShowCommandSearch => "workspace:show_command_search"@,
        KeyBindingName::PaneAddRight => "pane_group:add_right"@,
        KeyBindingName::PaneAddLeft => "pane_group:add_left"@,
        KeyBindingName::PaneAddDown => "pane_group:add_down"@,
        KeyBindingName::PaneAddUp => "pane_group:add_up"@,
        KeyBindingName::ToggleMaximizePane => "pane_group:toggle_maximize_pane"@,
    }
}

/// The shortcut shown beside an entry.
#[derive(Debug, Clone, Copy, PartialEq, Eq, Structural)]
pub enum MenuShortcut {
    /// The keys bound to the named binding.
    Binding(KeyBindingName),
    /// The keys of the custom action that closes the current session.
    CloseCurrentSession,
    /// ⌘-C, shown as it is.
    CommandC,
}

impl MenuLabel {
    /// The words of the label; `None` where the UI kit words it.
    pub fn text(&self) -> (r: Option<&'static str>)
        ensures
            match r {
                Some(t) => menu_label_text(*self) == Some(t@),
                None => menu_label_text(*self) is None,
            },
    {
        match *self {
            MenuLabel::Cut => {
                proof {
                    reveal_strlit("Cut");
                }
                Some("Cut")
            },
            MenuLabel::Copy => {
                proof {
                    reveal_strlit("Copy");
                }
                Some("Copy")
            },
            MenuLabel::SelectAll => {
                proof {
                    reveal_strlit("Select all");
                }
                Some("Select all")
            },
            MenuLabel::Paste => {
                proof {
                    reveal_strlit("Paste");
                }
                Some("Paste")
            },
            MenuLabel::CommandSearch => {
                proof {
                    reveal_strlit("Command search");
                }
                Some("Command search")
            },
            MenuLabel::CopyUrl => {
                proof {
                    reveal_strlit("Copy URL");
                }
                Some("Copy URL")
            },
            MenuLabel::CopyPath => {
                proof {
                    reveal_strlit("Copy path");
                }
                Some("Copy path")
            },
            MenuLabel::ShowInFinder => {
                proof {
                    reveal_strlit("Show in Finder");
                }
                Some("Show in Finder")
            },
            MenuLabel::ShowContainingFolder => {
                proof {
                    reveal_strlit("Show containing folder");
                }
                Some("Show containing folder")
            },
            MenuLabel::OpenInWarp => {
                proof {
                    reveal_strlit("Open in Warp");
                }
                Some("Open in Warp")
            },
            MenuLabel::OpenInEditor => {
                proof {
                    reveal_strlit("Open in editor");
                }
                Some("Open in editor")
            },
            MenuLabel::InsertIntoInput => {
                proof {
                    reveal_strlit("Insert into input");
                }
                Some("Insert into input")
            },
            MenuLabel::CopyOutput => {
                proof {
                    reveal_strlit("Copy output");
                }
                Some("Copy output")
            },
            MenuLabel::CopyFilteredOutput => {
                proof {
                    reveal_strlit("Copy filtered output");
                }
                Some("Copy filtered output")
            },
            MenuLabel::CopyPrompt => {
                proof {
                    reveal_strlit("Copy prompt");
                }
                Some("Copy prompt")
            },
            MenuLabel::CopyRightPrompt => {
                proof {
                    reveal_strlit("Copy right prompt");
                }
                Some("Copy right prompt")
            },
            MenuLabel::CopyWorkingDirectory => {
                proof {
                    reveal_strlit("Copy working directory");
                }
                Some("Copy working directory")
            },
            MenuLabel::CopyGitBranch => {
                proof {
                    reveal_strlit("Copy git branch");
                }
                Some("Copy git branch")
            },
            MenuLabel::EditPrompt => {
                proof {
                    reveal_strlit("Edit prompt");
                }
                Some("Edit prompt")
            },
            MenuLabel::SplitPaneRight => {
                proof {
                    reveal_strlit("Split pane right");
                }
                Some("Split pane right")
            },
            MenuLabel::SplitPaneLeft => {
                proof {
                    reveal_strlit("Split pane left");
                }
                Some("Split pane left")
            },
            MenuLabel::SplitPaneDown => {
                proof {
                    reveal_strlit("Split pane down");
                }
                Some("Split pane down")
            },
            MenuLabel::SplitPaneUp => {
                proof {
                    reveal_strlit("Split pane up");
                }
                Some("Split pane up")
            },
            MenuLabel::ClosePane => {
                proof {
                    reveal_strlit("Close pane");
                }
                Some("Close pane")
            },
            MenuLabel::InputHintText { shown } => if shown {
                proof {
                    reveal_strlit("Hide input hint text");
                }
                Some("Hide input hint text")
            } else {
                proof {
                    reveal_strlit("Show input hint text");
                }
                Some("Show input hint text")
            },
            MenuLabel::CopyCommands { plural } => if plural {
                proof {
                    reveal_strlit("Copy commands");
                }
                Some("Copy commands")
            } else {
                proof {
                    reveal_strlit("Copy command");
                }
                Some("Copy command")
            },
            MenuLabel::FindWithinBlocks { plural } => if plural {
                proof {
                    reveal_strlit("Find within blocks");
                }
                Some("Find within blocks")
            } else {
                proof {
                    reveal_strlit("Find within block");
                }
                Some("Find within block")
            },
            MenuLabel::ScrollToTopOfBlocks { plural } => if plural {
                proof {
                    reveal_strlit("Scroll to top of blocks");
                }
                Some("Scroll to top of blocks")
            } else {
                proof {
                    reveal_strlit("Scroll to top of block");
                }
                Some("Scroll to top of block")
            },
            MenuLabel::ScrollToBottomOfBlocks { plural } => if plural {
                proof {
                    reveal_strlit("Scroll to bottom of blocks");
                }
                Some("Scroll to bottom of blocks")
            } else {
                proof {
                    reveal_strlit("Scroll to bottom of block");
                }
                Some("Scroll to bottom of block")
            },
            MenuLabel::ToggleMaximizePane { .. } => None,
        }
    }
}

impl KeyBindingName {
    /// The name the binding is registered under.
    pub fn name(&self) -> (r: &'static str)
        ensures
            r@ == key_binding_name(*self),
    {
        match *self {
            KeyBindingName::TerminalCopy => {
                proof {
                    reveal_strlit("terminal:copy");
                }
                "terminal:copy"
            },
            KeyBindingName::TerminalCopyCommands => {
                proof {
                    reveal_strlit("terminal:copy_commands");
                }
                "terminal:copy_commands"
            },
            KeyBindingName::TerminalCopyOutputs => {
                proof {
                    reveal_strlit("terminal:copy_outputs");
                }
                "terminal:copy_outputs"
            },
            KeyBindingName::TerminalFind => {
                proof {
                    reveal_strlit("terminal:find");
                }
                "terminal:find"
            },
            KeyBindingName::ScrollToTopOfSelectedBlock => {
                proof {
                    reveal_strlit("terminal:scroll_to_top_of_selected_block");
                }
                "terminal:scroll_to_top_of_selected_block"
            },
            KeyBindingName::ScrollToBottomOfSelectedBlock => {
                proof {
                    reveal_strlit("terminal:scroll_to_bottom_of_selected_block");
                }
                "terminal:scroll_to_bottom_of_selected_block"
            },
            KeyBindingName::EditorSelectAll => {
                proof {
                    reveal_strlit("editor_view:select_all");
                }
                "editor_view:select_all"
            },
            KeyBindingName::TerminalPaste => {
                proof {
                    reveal_strlit("terminal:paste");
                }
                "terminal:paste"
            },
            KeyBindingName::ShowCommandSearch => {
                proof {
                    reveal_strlit("workspace:show_command_search");
                }
                "workspace:show_command_search"
            },
            KeyBindingName::PaneAddRight => {
                proof {
                    reveal_strlit("pane_group:add_right");
                }
                "pane_group:add_right"
            },
            KeyBindingName::PaneAddLeft => {
                proof {
                    reveal_strlit("pane_group:add_left");
                }
                "pane_group:add_left"
            },
            KeyBindingName::PaneAddDown => {
                proof {
                    reveal_strlit("pane_group:add_down");
                }
                "pane_group:add_down"
            },
            KeyBindingName::PaneAddUp => {
                proof {
                    reveal_strlit("pane_group:add_up");
                }
                "pane_group:add_up"
            },
            KeyBindingName::ToggleMaximizePane => {
                proof {
                    reveal_strlit("pane_group:toggle_maximize_pane");
                }
                "pane_group:toggle_maximize_pane"
            },
        }
    }
}

/// What choosing an entry does.
#[derive(Clone)]
pub enum MenuAction {
    ContextMenu(ContextMenuAction),
    InputContextMenuItem(InputContextMenuAction),
    ShowInFileExplorer(String),
    OpenFileInWarp(String),
    /// Opens the highlighted link.
    OpenGridLink,
    /// Splits the pane, starting the current shell in the new one.
    SplitRight,
    SplitLeft,
    SplitDown,
    SplitUp,
    ToggleMaximizePane,
    Close,
}

/// An entry of a context menu.
#[derive(Clone)]
pub enum MenuEntry {
    Item { label: MenuLabel, action: MenuAction, shortcut: Option<MenuShortcut>, disabled: bool },
    Separator,
}

pub open spec fn item(
    label: MenuLabel,
    action: MenuAction,
    shortcut: Option<MenuShortcut>,
    disabled: bool,
) -> MenuEntry {
    MenuEntry::Item { label, action, shortcut, disabled }
}

pub open spec fn binding(b: KeyBindingName) -> Option<MenuShortcut> {
    Some(MenuShortcut::Binding(b))
}

/// Where a block-list menu was opened.
#[derive(Debug, Clone, Copy, PartialEq, Eq, Structural)]
pub enum BlockListMenuSourceKind {
    RegularBlockRightClick,
    RegularTextRightClick,
    RichContentBlockRightClick,
    RichContentTextRightClick,
    OutsideBlockRightClick,
    BlockOverflowButton,
    BlockKeybinding,
}

/// The link under the mouse.
#[derive(Debug, Clone)]
pub enum HighlightedLink {
    /// A URL, with its text.
    Url { url_content: String },
    /// A file, with its absolute path when it has one, and whether it is a
    /// Markdown file.
    File { path: Option<String>, is_markdown: bool },
}

/// What the menu needs of the last selected block.
#[derive(Debug, Clone, Copy, PartialEq, Eq, Structural)]
pub struct TailBlock {
    pub command_is_blank: bool,
    pub output_is_blank: bool,
    pub output_grid_is_empty: bool,
    pub has_active_filter: bool,
}

/// A non-empty block selection: the index of its last block, whether it is a
/// single block, and that block when the block list has it.
#[derive(Debug, Clone, Copy, PartialEq, Eq, Structural)]
pub struct BlockSelection {
    pub tail: BlockIndex,
    pub is_singleton: bool,
    pub tail_block: Option<TailBlock>,
}

/// What the prompt entries need.
#[derive(Debug, Clone, Copy, PartialEq, Eq, Structural)]
pub struct PromptMenuState {
    pub is_on_git_branch: bool,
    pub is_rprompt_shown: bool,
}

/// What the pane entries need.
#[derive(Debug, Clone, Copy, PartialEq, Eq, Structural)]
pub struct PaneMenuState {
    /// Whether new sessions can be created here.
    pub can_create_session: bool,
    pub is_in_split_pane: bool,
    pub is_maximized: bool,
}

/// Entries that copy parts of a prompt.
pub open spec fn copy_prompt_entries(
    is_on_git_branch: bool,
    is_rprompt_shown: bool,
    position: PromptPosition,
) -> Seq<MenuEntry> {
    seq![
        item(
            MenuLabel::CopyPrompt,
            MenuAction::ContextMenu(ContextMenuAction::CopyPrompt { position, part: PromptPart::EntirePrompt }),
            None,
            false,
        ),
    ] + (if is_rprompt_shown {
        seq![item(MenuLabel::CopyRightPrompt, MenuAction::ContextMenu(ContextMenuAction::CopyRprompt), None, false)]
    } else {
        Seq::empty()
    }) + seq![
        item(
            MenuLabel::CopyWorkingDirectory,
            MenuAction::ContextMenu(ContextMenuAction::CopyPrompt { position, part: PromptPart::Pwd }),
            None,
            false,
        ),
    ] + (if is_on_git_branch {
        seq![
            item(
                MenuLabel::CopyGitBranch,
                MenuAction::ContextMenu(ContextMenuAction::CopyPrompt { position, part: PromptPart::GitBranch }),
                None,
                false,
            ),
        ]
    } else {
        Seq::empty()
    })
}

/// Entries that split, maximize or close the pane.
pub open spec fn pane_entries(pane: PaneMenuState) -> Seq<MenuEntry> {
    (if pane.can_create_session {
        seq![
            item(MenuLabel::SplitPaneRight, MenuAction::SplitRight, binding(KeyBindingName::PaneAddRight), false),
            item(MenuLabel::SplitPaneLeft, MenuAction::SplitLeft, binding(KeyBindingName::PaneAddLeft), false),
            item(MenuLabel::SplitPaneDown, MenuAction::SplitDown, binding(KeyBindingName::PaneAddDown), false),
            item(MenuLabel::SplitPaneUp, MenuAction::SplitUp, binding(KeyBindingName::PaneAddUp), false),
        ]
    } else {
        Seq::empty()
    }) + (if pane.is_in_split_pane {
        seq![
            item(
                MenuLabel::ToggleMaximizePane { is_maximized: pane.is_maximized },
                MenuAction::ToggleMaximizePane,
                binding(KeyBindingName::ToggleMaximizePane),
                false,
            ),
            item(MenuLabel::ClosePane, MenuAction::Close, Some(MenuShortcut::CloseCurrentSession), false),
        ]
    } else {
        Seq::empty()
    })
}

/// `entries`, then a separator and `more` where both are non-empty.
pub open spec fn then_section(entries: Seq<MenuEntry>, more: Seq<MenuEntry>) -> Seq<MenuEntry> {
    if entries.len() > 0 && more.len() > 0 {
        entries + seq![MenuEntry::Separator] + more
    } else {
        entries + more
    }
}

/// Entries for the link under the mouse.
pub open spec fn link_entries(link: HighlightedLink, is_macos: bool) -> Seq<MenuEntry> {
    match link {
        HighlightedLink::Url { url_content } => seq![
            item(MenuLabel::CopyUrl, MenuAction::ContextMenu(ContextMenuAction::CopyUrl { url_content }), None, false),
        ],
        HighlightedLink::File { path, is_markdown } => match path {
            None => Seq::empty(),
            Some(p) => seq![
                item(MenuLabel::CopyPath, MenuAction::ContextMenu(ContextMenuAction::CopyUrl { url_content: p }), None, false),
                item(
                    if is_macos {
                        MenuLabel::ShowInFinder
                    } else {
                        MenuLabel::ShowContainingFolder
                    },
                    MenuAction::ShowInFileExplorer(p),
                    None,
                    false,
                ),
            ] + (if is_markdown {
                seq![
                    item(MenuLabel::OpenInWarp, MenuAction::OpenFileInWarp(p), None, false),
                    item(MenuLabel::OpenInEditor, MenuAction::OpenGridLink, None, false),
                ]
            } else {
                Seq::empty()
            }),
        },
    }
}

/// The copy entries for selected blocks, whose last block is `t`.
pub open spec fn block_copy_entries(single: bool, t: TailBlock) -> Seq<MenuEntry> {
    let copy_commands_disabled = single && t.command_is_blank;
    let copy_both_disabled = copy_commands_disabled && t.output_is_blank;
    let copy = item(
        MenuLabel::Copy,
        MenuAction::ContextMenu(ContextMenuAction::CopyBlocks),
        binding(KeyBindingName::TerminalCopy),
        copy_both_disabled,
    );
    let copy_commands = item(
        MenuLabel::CopyCommands { plural: !single },
        MenuAction::ContextMenu(ContextMenuAction::CopyBlockCommands),
        binding(KeyBindingName::TerminalCopyCommands),
        copy_commands_disabled,
    );
    if !single {
        seq![copy, copy_commands]
    } else if t.has_active_filter {
        seq![
            copy,
            item(
                MenuLabel::CopyFilteredOutput,
                MenuAction::ContextMenu(ContextMenuAction::CopyBlockFilteredOutputs),
                binding(KeyBindingName::TerminalCopyOutputs),
                false,
            ),
            item(
                MenuLabel::CopyOutput,
                MenuAction::ContextMenu(ContextMenuAction::CopyBlockOutputs),
                None,
                t.output_grid_is_empty,
            ),
            copy_commands,
        ]
    } else {
        seq![
            copy,
            copy_commands,
            item(
                MenuLabel::CopyOutput,
                MenuAction::ContextMenu(ContextMenuAction::CopyBlockOutputs),
                binding(KeyBindingName::TerminalCopyOutputs),
                t.output_grid_is_empty,
            ),
        ]
    }
}

/// The entries that find within and scroll through selected blocks.
pub open spec fn block_navigation_entries(single: bool) -> Seq<MenuEntry> {
    seq![
        MenuEntry::Separator,
        item(
            MenuLabel::FindWithinBlocks { plural: !single },
            MenuAction::ContextMenu(ContextMenuAction::FindWithinBlock),
            binding(KeyBindingName::TerminalFind),
            false,
        ),
        MenuEntry::Separator,
        item(
            MenuLabel::ScrollToTopOfBlocks { plural: !single },
            MenuAction::ContextMenu(ContextMenuAction::ScrollToTopOfBlock),
            binding(KeyBindingName::ScrollToTopOfSelectedBlock),
            false,
        ),
        item(
            MenuLabel::ScrollToBottomOfBlocks { plural: !single },
            MenuAction::ContextMenu(ContextMenuAction::ScrollToBottomOfBlock),
            binding(KeyBindingName::ScrollToBottomOfSelectedBlock),
            false,
        ),
    ]
}

/// Entries for selected blocks, whose last block is `t`: the copy entries; for
/// a single block, the prompt entries after a separator; then finding and
/// scrolling.
pub open spec fn block_entries(
    selection: BlockSelection,
    t: TailBlock,
    prompt: PromptMenuState,
) -> Seq<MenuEntry> {
    let single = selection.is_singleton;
    block_copy_entries(single, t) + (if single {
        seq![MenuEntry::Separator] + copy_prompt_entries(
            prompt.is_on_git_branch,
            prompt.is_rprompt_shown,
            PromptPosition::Block(selection.tail),
        )
    } else {
        Seq::empty()
    }) + block_navigation_entries(single)
}

/// Entries for selected text in the block list.
pub open spec fn selected_text_entries() -> Seq<MenuEntry> {
    seq![
        item(
            MenuLabel::Copy,
            MenuAction::ContextMenu(ContextMenuAction::CopySelectedText),
            binding(KeyBindingName::TerminalCopy),
            false,
        ),
        item(
            MenuLabel::InsertIntoInput,
            MenuAction::ContextMenu(ContextMenuAction::InsertSelectedText),
            None,
            false,
        ),
    ]
}

pub open spec fn is_block_click(source: BlockListMenuSourceKind) -> bool {
    source is RegularBlockRightClick || source is RichContentBlockRightClick
}

pub open spec fn is_text_click(source: BlockListMenuSourceKind) -> bool {
    source is RegularTextRightClick || source is RichContentTextRightClick
}

/// Whether the menu is about selected blocks when blocks are selected.
pub open spec fn is_block_menu(source: BlockListMenuSourceKind) -> bool {
    !is_text_click(source)
}

/// Whether the pane entries are added: for a click, not for the overflow
/// button or a key binding.
pub open spec fn has_pane_entries(source: BlockListMenuSourceKind) -> bool {
    !(source is BlockOverflowButton || source is BlockKeybinding)
}

/// The entries of the block-list menu before the pane entries; `None` when
/// the selected block is missing from the block list, and the menu is empty.
pub open spec fn block_list_entries(
    source: BlockListMenuSourceKind,
    link: Option<HighlightedLink>,
    selection: Option<BlockSelection>,
    prompt: PromptMenuState,
    is_macos: bool,
) -> Option<Seq<MenuEntry>> {
    match link {
        Some(l) => if is_block_click(source) {
            Some(link_entries(l, is_macos))
        } else {
            Some(Seq::empty())
        },
        None => match selection {
            None => if is_text_click(source) {
                Some(selected_text_entries())
            } else {
                Some(Seq::empty())
            },
            Some(sel) => if is_block_menu(source) {
                match sel.tail_block {
                    Some(t) => Some(block_entries(sel, t, prompt)),
                    None => None,
                }
            } else {
                Some(Seq::empty())
            },
        },
    }
}

/// The entries of the block-list menu.
pub open spec fn block_list_menu(
    source: BlockListMenuSourceKind,
    link: Option<HighlightedLink>,
    selection: Option<BlockSelection>,
    prompt: PromptMenuState,
    pane: PaneMenuState,
    is_macos: bool,
) -> Seq<MenuEntry> {
    match block_list_entries(source, link, selection, prompt, is_macos) {
        None => Seq::empty(),
        Some(base) => if has_pane_entries(source) {
            then_section(base, pane_entries(pane))
        } else {
            base
        },
    }
}

/// The entries of the input's menu.
pub open spec fn input_menu(
    has_input_text: bool,
    has_selected_text: bool,
    show_hint_text: bool,
    pane: PaneMenuState,
) -> Seq<MenuEntry> {
    let p = pane_entries(pane);
    (if has_selected_text {
        seq![
            item(MenuLabel::Cut, MenuAction::InputContextMenuItem(InputContextMenuAction::CutSelectedText), None, false),
            item(
                MenuLabel::Copy,
                MenuAction::InputContextMenuItem(InputContextMenuAction::CopySelectedText),
                binding(KeyBindingName::TerminalCopy),
                false,
            ),
        ]
    } else {
        Seq::empty()
    }) + (if has_input_text && !has_selected_text {
        seq![
            item(
                MenuLabel::SelectAll,
                MenuAction::InputContextMenuItem(InputContextMenuAction::SelectAll),
                binding(KeyBindingName::EditorSelectAll),
                false,
            ),
        ]
    } else {
        Seq::empty()
    }) + seq![
        item(
            MenuLabel::Paste,
            MenuAction::InputContextMenuItem(InputContextMenuAction::Paste),
            binding(KeyBindingName::TerminalPaste),
            false,
        ),
        MenuEntry::Separator,
        item(
            MenuLabel::CommandSearch,
            MenuAction::InputContextMenuItem(InputContextMenuAction::ShowCommandSearch),
            binding(KeyBindingName::ShowCommandSearch),
            false,
        ),
        MenuEntry::Separator,
        item(
            MenuLabel::InputHintText { shown: show_hint_text },
            MenuAction::InputContextMenuItem(InputContextMenuAction::ToggleInputHintText),
            None,
            false,
        ),
    ] + (if p.len() > 0 {
        seq![MenuEntry::Separator] + p
    } else {
        Seq::empty()
    })
}

/// The entries of the prompt's menu. `prompt_part_entries` are those the
/// prompt offers for its parts, used when the shell's own prompt is not shown.
pub open spec fn prompt_menu(
    honor_ps1: bool,
    is_rprompt_shown: bool,
    prompt_part_entries: Seq<MenuEntry>,
) -> Seq<MenuEntry> {
    let copy = item(
        MenuLabel::CopyPrompt,
        MenuAction::ContextMenu(
            ContextMenuAction::CopyPrompt { position: PromptPosition::Input, part: PromptPart::EntirePrompt },
        ),
        None,
        false,
    );
    let edit = item(MenuLabel::EditPrompt, MenuAction::ContextMenu(ContextMenuAction::EditPrompt), None, false);
    seq![copy] + (if honor_ps1 {
        if is_rprompt_shown {
            seq![item(MenuLabel::CopyRightPrompt, MenuAction::ContextMenu(ContextMenuAction::CopyRprompt), None, false)]
        } else {
            Seq::empty()
        }
    } else if prompt_part_entries.len() > 0 {
        seq![MenuEntry::Separator] + prompt_part_entries
    } else {
        Seq::empty()
    }) + seq![MenuEntry::Separator, edit]
}

/// The entries of the alternate screen's menu.
pub open spec fn alt_screen_menu(has_selection: bool, pane: PaneMenuState) -> Seq<MenuEntry> {
    then_section(
        if has_selection {
            seq![
                item(
                    MenuLabel::Copy,
                    MenuAction::ContextMenu(ContextMenuAction::CopySelectedText),
                    Some(MenuShortcut::CommandC),
                    false,
                ),
            ]
        } else {
            Seq::empty()
        },
        pane_entries(pane),
    )
}

fn entry(label: MenuLabel, action: MenuAction, shortcut: Option<MenuShortcut>, disabled: bool) -> (r:
    MenuEntry)
    ensures
        r == item(label, action, shortcut, disabled),
{
    MenuEntry::Item { label, action, shortcut, disabled }
}

fn push_section(entries: &mut Vec<MenuEntry>, more: Vec<MenuEntry>)
    ensures
        final(entries)@ == then_section(old(entries)@, more@),
{
    let mut more = more;
    if entries.len() > 0 && more.len() > 0 {
        entries.push(MenuEntry::Separator);
    }
    entries.append(&mut more);
}

/// Entries that copy the whole prompt, the right prompt when it is shown, the
/// working directory, and the git branch when there is one.
pub fn copy_prompt_menu_items(
    is_on_git_branch: bool,
    is_rprompt_shown: bool,
    position: PromptPosition,
) -> (r: Vec<MenuEntry>)
    ensures
        r@ == copy_prompt_entries(is_on_git_branch, is_rprompt_shown, position),
{
    let mut items: Vec<MenuEntry> = Vec::new();
    items.push(
        entry(
            MenuLabel::CopyPrompt,
            MenuAction::ContextMenu(ContextMenuAction::CopyPrompt { position, part: PromptPart::EntirePrompt }),
            None,
            false,
        ),
    );
    if is_rprompt_shown {
        items.push(
            entry(MenuLabel::CopyRightPrompt, MenuAction::ContextMenu(ContextMenuAction::CopyRprompt), None, false),
        );
    }
    items.push(
        entry(
            MenuLabel::CopyWorkingDirectory,
            MenuAction::ContextMenu(ContextMenuAction::CopyPrompt { position, part: PromptPart::Pwd }),
            None,
            false,
        ),
    );
    if is_on_git_branch {
        items.push(
            entry(
                MenuLabel::CopyGitBranch,
                MenuAction::ContextMenu(ContextMenuAction::CopyPrompt { position, part: PromptPart::GitBranch }),
                None,
                false,
            ),
        );
    }
    assert(items@ =~= copy_prompt_entries(is_on_git_branch, is_rprompt_shown, position));
    items
}

/// Entries that split the pane (where new sessions can be created), and, in a
/// split pane, that maximize or restore it and close it.
pub fn pane_context_menu_items(pane: PaneMenuState) -> (r: Vec<MenuEntry>)
    ensures
        r@ == pane_entries(pane),
{
    let mut items: Vec<MenuEntry> = Vec::new();
    if pane.can_create_session {
        items.push(
            entry(
                MenuLabel::SplitPaneRight,
                MenuAction::SplitRight,
                Some(MenuShortcut::Binding(KeyBindingName::PaneAddRight)),
                false,
            ),
        );
        items.push(
            entry(
                MenuLabel::SplitPaneLeft,
                MenuAction::SplitLeft,
                Some(MenuShortcut::Binding(KeyBindingName::PaneAddLeft)),
                false,
            ),
        );
        items.push(
            entry(
                MenuLabel::SplitPaneDown,
                MenuAction::SplitDown,
                Some(MenuShortcut::Binding(KeyBindingName::PaneAddDown)),
                false,
            ),
        );
        items.push(
            entry(
                MenuLabel::SplitPaneUp,
                MenuAction::SplitUp,
                Some(MenuShortcut::Binding(KeyBindingName::PaneAddUp)),
                false,
            ),
        );
    }
    if pane.is_in_split_pane {
        items.push(
            entry(
                MenuLabel::ToggleMaximizePane { is_maximized: pane.is_maximized },
                MenuAction::ToggleMaximizePane,
                Some(MenuShortcut::Binding(KeyBindingName::ToggleMaximizePane)),
                false,
            ),
        );
        items.push(
            entry(MenuLabel::ClosePane, MenuAction::Close, Some(MenuShortcut::CloseCurrentSession), false),
        );
    }
    assert(items@ =~= pane_entries(pane));
    items
}

fn link_menu_items(link: HighlightedLink, is_macos: bool) -> (r: Vec<MenuEntry>)
    ensures
        r@ == link_entries(link, is_macos),
{
    let mut items: Vec<MenuEntry> = Vec::new();
    match link {
        HighlightedLink::Url { url_content } => {
            items.push(
                entry(MenuLabel::CopyUrl, MenuAction::ContextMenu(ContextMenuAction::CopyUrl { url_content }), None, false),
            );
        },
        HighlightedLink::File { path, is_markdown } => {
            if let Some(p) = path {
                items.push(
                    entry(
                        MenuLabel::CopyPath,
                        MenuAction::ContextMenu(ContextMenuAction::CopyUrl { url_content: p.clone() }),
                        None,
                        false,
                    ),
                );
                let label = if is_macos {
                    MenuLabel::ShowInFinder
                } else {
                    MenuLabel::ShowContainingFolder
                };
                items.push(entry(label, MenuAction::ShowInFileExplorer(p.clone()), None, false));
                if is_markdown {
                    items.push(entry(MenuLabel::OpenInWarp, MenuAction::OpenFileInWarp(p), None, false));
                    items.push(entry(MenuLabel::OpenInEditor, MenuAction::OpenGridLink, None, false));
                }
            }
        },
    }
    proof {
        assert(items@ =~= link_entries(link, is_macos));
    }
    items
}

fn selected_text_menu_items() -> (r: Vec<MenuEntry>)
    ensures
        r@ == selected_text_entries(),
{
    let mut v: Vec<MenuEntry> = Vec::new();
    v.push(
        entry(
            MenuLabel::Copy,
            MenuAction::ContextMenu(ContextMenuAction::CopySelectedText),
            Some(MenuShortcut::Binding(KeyBindingName::TerminalCopy)),
            false,
        ),
    );
    v.push(
        entry(
            MenuLabel::InsertIntoInput,
            MenuAction::ContextMenu(ContextMenuAction::InsertSelectedText),
            None,
            false,
        ),
    );
    assert(v@ =~= selected_text_entries());
    v
}

fn block_copy_items(single: bool, t: TailBlock) -> (r: Vec<MenuEntry>)
    ensures
        r@ == block_copy_entries(single, t),
{
    let copy_commands_disabled = single && t.command_is_blank;
    let copy_both_disabled = copy_commands_disabled && t.output_is_blank;
    let mut items: Vec<MenuEntry> = Vec::new();
    items.push(
        entry(
            MenuLabel::Copy,
            MenuAction::ContextMenu(ContextMenuAction::CopyBlocks),
            Some(MenuShortcut::Binding(KeyBindingName::TerminalCopy)),
            copy_both_disabled,
        ),
    );
    let copy_commands = entry(
        MenuLabel::CopyCommands { plural: !single },
        MenuAction::ContextMenu(ContextMenuAction::CopyBlockCommands),
        Some(MenuShortcut::Binding(KeyBindingName::TerminalCopyCommands)),
        copy_commands_disabled,
    );
    if !single {
        items.push(copy_commands);
    } else if t.has_active_filter {
        items.push(
            entry(
                MenuLabel::CopyFilteredOutput,
                MenuAction::ContextMenu(ContextMenuAction::CopyBlockFilteredOutputs),
                Some(MenuShortcut::Binding(KeyBindingName::TerminalCopyOutputs)),
                false,
            ),
        );
        items.push(
            entry(
                MenuLabel::CopyOutput,
                MenuAction::ContextMenu(ContextMenuAction::CopyBlockOutputs),
                None,
                t.output_grid_is_empty,
            ),
        );
        items.push(copy_commands);
    } else {
        items.push(copy_commands);
        items.push(
            entry(
                MenuLabel::CopyOutput,
                MenuAction::ContextMenu(ContextMenuAction::CopyBlockOutputs),
                Some(MenuShortcut::Binding(KeyBindingName::TerminalCopyOutputs)),
                t.output_grid_is_empty,
            ),
        );
    }
    assert(items@ =~= block_copy_entries(single, t));
    items
}

fn block_navigation_items(single: bool) -> (r: Vec<MenuEntry>)
    ensures
        r@ == block_navigation_entries(single),
{
    let mut items: Vec<MenuEntry> = Vec::new();
    items.push(MenuEntry::Separator);
    items.push(
        entry(
            MenuLabel::FindWithinBlocks { plural: !single },
            MenuAction::ContextMenu(ContextMenuAction::FindWithinBlock),
            Some(MenuShortcut::Binding(KeyBindingName::TerminalFind)),
            false,
        ),
    );
    items.push(MenuEntry::Separator);
    items.push(
        entry(
            MenuLabel::ScrollToTopOfBlocks { plural: !single },
            MenuAction::ContextMenu(ContextMenuAction::ScrollToTopOfBlock),
            Some(MenuShortcut::Binding(KeyBindingName::ScrollToTopOfSelectedBlock)),
            false,
        ),
    );
    items.push(
        entry(
            MenuLabel::ScrollToBottomOfBlocks { plural: !single },
            MenuAction::ContextMenu(ContextMenuAction::ScrollToBottomOfBlock),
            Some(MenuShortcut::Binding(KeyBindingName::ScrollToBottomOfSelectedBlock)),
            false,
        ),
    );
    assert(items@ =~= block_navigation_entries(single));
    items
}

fn block_menu_items(selection: BlockSelection, t: TailBlock, prompt: PromptMenuState) -> (r: Vec<
    MenuEntry,
>)
    ensures
        r@ == block_entries(selection, t, prompt),
{
    let single = selection.is_singleton;
    let mut items = block_copy_items(single, t);
    let ghost copies = items@;
    let ghost middle = Seq::<MenuEntry>::empty();
    if single {
        items.push(MenuEntry::Separator);
        let mut prompt_items = copy_prompt_menu_items(
            prompt.is_on_git_branch,
            prompt.is_rprompt_shown,
            PromptPosition::Block(selection.tail),
        );
        proof {
            middle = seq![MenuEntry::Separator] + prompt_items@;
        }
        items.append(&mut prompt_items);
    }
    assert(items@ =~= copies + middle);
    let mut tail = block_navigation_items(single);
    items.append(&mut tail);
    assert(items@ =~= block_entries(selection, t, prompt));
    items
}

/// The entries of the block-list menu opened from `source`: for a click on a
/// block with a link under the mouse, the link's entries; for a click on text
/// with no block selected, copying and inserting the text; with blocks
/// selected, the block entries (none at all when the selected block is missing
/// from the block list); then, for a click, the pane entries after a separator.
pub fn context_menu_items(
    source: BlockListMenuSourceKind,
    link: Option<HighlightedLink>,
    selection: Option<BlockSelection>,
    prompt: PromptMenuState,
    pane: PaneMenuState,
    is_macos: bool,
) -> (r: Vec<MenuEntry>)
    ensures
        r@ == block_list_menu(source, link, selection, prompt, pane, is_macos),
{
    let block_click = match source {
        BlockListMenuSourceKind::RegularBlockRightClick
        | BlockListMenuSourceKind::RichContentBlockRightClick => true,
        _ => false,
    };
    let text_click = match source {
        BlockListMenuSourceKind::RegularTextRightClick
        | BlockListMenuSourceKind::RichContentTextRightClick => true,
        _ => false,
    };
    let with_pane = match source {
        BlockListMenuSourceKind::BlockOverflowButton | BlockListMenuSourceKind::BlockKeybinding => false,
        _ => true,
    };
    let ghost spec_link = link;
    let mut items: Vec<MenuEntry> = match link {
        Some(l) => {
            if block_click {
                link_menu_items(l, is_macos)
            } else {
                Vec::new()
            }
        },
        None => match selection {
            None => {
                if text_click {
                    selected_text_menu_items()
                } else {
                    Vec::new()
                }
            },
            Some(sel) => {
                if !text_click {
                    match sel.tail_block {
                        Some(t) => block_menu_items(sel, t, prompt),
                        None => {
                            return Vec::new();
                        },
                    }
                } else {
                    Vec::new()
                }
            },
        },
    };
    assert(block_list_entries(source, spec_link, selection, prompt, is_macos) == Some(items@));
    if with_pane {
        push_section(&mut items, pane_context_menu_items(pane));
    }
    items
}

/// The entries of the input's menu: cut and copy with text selected, select
/// all with text but none selected, paste, command search, the hint-text
/// toggle, then the pane entries after a separator.
pub fn input_context_menu_items(
    has_input_text: bool,
    has_selected_text: bool,
    show_hint_text: bool,
    pane: PaneMenuState,
) -> (r: Vec<MenuEntry>)
    ensures
        r@ == input_menu(has_input_text, has_selected_text, show_hint_text, pane),
{
    let mut items: Vec<MenuEntry> = Vec::new();
    if has_selected_text {
        items.push(
            entry(MenuLabel::Cut, MenuAction::InputContextMenuItem(InputContextMenuAction::CutSelectedText), None, false),
        );
        items.push(
            entry(
                MenuLabel::Copy,
                MenuAction::InputContextMenuItem(InputContextMenuAction::CopySelectedText),
                Some(MenuShortcut::Binding(KeyBindingName::TerminalCopy)),
                false,
            ),
        );
    }
    if has_input_text && !has_selected_text {
        items.push(
            entry(
                MenuLabel::SelectAll,
                MenuAction::InputContextMenuItem(InputContextMenuAction::SelectAll),
                Some(MenuShortcut::Binding(KeyBindingName::EditorSelectAll)),
                false,
            ),
        );
    }
    items.push(
        entry(
            MenuLabel::Paste,
            MenuAction::InputContextMenuItem(InputContextMenuAction::Paste),
            Some(MenuShortcut::Binding(KeyBindingName::TerminalPaste)),
            false,
        ),
    );
    items.push(MenuEntry::Separator);
    items.push(
        entry(
            MenuLabel::CommandSearch,
            MenuAction::InputContextMenuItem(InputContextMenuAction::ShowCommandSearch),
            Some(MenuShortcut::Binding(KeyBindingName::ShowCommandSearch)),
            false,
        ),
    );
    items.push(MenuEntry::Separator);
    items.push(
        entry(
            MenuLabel::InputHintText { shown: show_hint_text },
            MenuAction::InputContextMenuItem(InputContextMenuAction::ToggleInputHintText),
            None,
            false,
        ),
    );
    let mut pane_items = pane_context_menu_items(pane);
    if pane_items.len() > 0 {
        items.push(MenuEntry::Separator);
        items.append(&mut pane_items);
    }
    assert(items@ =~= input_menu(has_input_text, has_selected_text, show_hint_text, pane));
    items
}

/// The entries of the prompt's menu: copy the prompt; with the shell's own
/// prompt shown, copy the right prompt when it is shown, otherwise the
/// prompt's part entries after a separator; then edit the prompt after a
/// separator.
pub fn prompt_context_menu_items(
    honor_ps1: bool,
    is_rprompt_shown: bool,
    prompt_part_entries: Vec<MenuEntry>,
) -> (r: Vec<MenuEntry>)
    ensures
        r@ == prompt_menu(honor_ps1, is_rprompt_shown, prompt_part_entries@),
{
    let ghost parts = prompt_part_entries@;
    let mut items: Vec<MenuEntry> = Vec::new();
    items.push(
        entry(
            MenuLabel::CopyPrompt,
            MenuAction::ContextMenu(
                ContextMenuAction::CopyPrompt { position: PromptPosition::Input, part: PromptPart::EntirePrompt },
            ),
            None,
            false,
        ),
    );
    if honor_ps1 {
        if is_rprompt_shown {
            items.push(
                entry(MenuLabel::CopyRightPrompt, MenuAction::ContextMenu(ContextMenuAction::CopyRprompt), None, false),
            );
        }
    } else {
        let mut parts_vec = prompt_part_entries;
        if parts_vec.len() > 0 {
            items.push(MenuEntry::Separator);
            items.append(&mut parts_vec);
        }
    }
    items.push(MenuEntry::Separator);
    items.push(entry(MenuLabel::EditPrompt, MenuAction::ContextMenu(ContextMenuAction::EditPrompt), None, false));
    assert(items@ =~= prompt_menu(honor_ps1, is_rprompt_shown, parts));
    items
}

/// The entries of the alternate screen's menu: copy with text selected, then
/// the pane entries after a separator.
pub fn alt_screen_context_menu_items(has_selection: bool, pane: PaneMenuState) -> (r: Vec<MenuEntry>)
    ensures
        r@ == alt_screen_menu(has_selection, pane),
{
    let mut items: Vec<MenuEntry> = Vec::new();
    if has_selection {
        items.push(
            entry(
                MenuLabel::Copy,
                MenuAction::ContextMenu(ContextMenuAction::CopySelectedText),
                Some(MenuShortcut::CommandC),
                false,
            ),
        );
    }
    push_section(&mut items, pane_context_menu_items(pane));
    items
}

/// No entry of `s` is a separator.
pub open spec fn no_separator(s: Seq<MenuEntry>) -> bool {
    forall|i: int| 0 <= i < s.len() ==> !(#[trigger] s[i] is Separator)
}

/// A separator never opens or closes `s`, and never follows another one.
pub open spec fn well_separated(s: Seq<MenuEntry>) -> bool {
    &&& s.len() > 0 ==> !(s[0] is Separator) && !(s[s.len() - 1] is Separator)
    &&& forall|i: int| 0 <= i < s.len() - 1 ==> !(#[trigger] s[i] is Separator && s[i + 1] is Separator)
}

proof fn lemma_no_separator_well_separated(s: Seq<MenuEntry>)
    requires
        no_separator(s),
    ensures
        well_separated(s),
{
    if s.len() > 0 {
        assert(!(s[0] is Separator));
        assert(!(s[s.len() - 1] is Separator));
    }
    assert forall|i: int| 0 <= i < s.len() - 1 implies !(#[trigger] s[i] is Separator && s[i
        + 1] is Separator) by {
        assert(!(s[i] is Separator));
    }
}

proof fn lemma_join_well_separated(a: Seq<MenuEntry>, b: Seq<MenuEntry>)
    requires
        well_separated(a),
        well_separated(b),
        a.len() > 0,
        b.len() > 0,
    ensures
        well_separated(a + seq![MenuEntry::Separator] + b),
{
    let s = a + seq![MenuEntry::Separator] + b;
    assert(s[0] == a[0]);
    assert(s[s.len() - 1] == b[b.len() - 1]);
    assert forall|i: int| 0 <= i < s.len() - 1 implies !(#[trigger] s[i] is Separator && s[i
        + 1] is Separator) by {
        if i < a.len() - 1 {
            assert(s[i] == a[i] && s[i + 1] == a[i + 1]);
        } else if i == a.len() - 1 {
            assert(s[i] == a[a.len() - 1]);
        } else if i == a.len() {
            assert(s[i + 1] == b[0]);
        } else {
            assert(s[i] == b[i - a.len() - 1] && s[i + 1] == b[i - a.len()]);
        }
    }
}

proof fn lemma_then_section_well_separated(a: Seq<MenuEntry>, b: Seq<MenuEntry>)
    requires
        well_separated(a),
        well_separated(b),
    ensures
        well_separated(then_section(a, b)),
{
    if a.len() > 0 && b.len() > 0 {
        lemma_join_well_separated(a, b);
    } else if a.len() == 0 {
        assert(a + b =~= b);
    } else {
        assert(a + b =~= a);
    }
}

proof fn lemma_copy_prompt_entries_no_separator(g: bool, r: bool, position: PromptPosition)
    ensures
        no_separator(copy_prompt_entries(g, r, position)),
        copy_prompt_entries(g, r, position).len() > 0,
{
    let s = copy_prompt_entries(g, r, position);
    assert forall|i: int| 0 <= i < s.len() implies !(#[trigger] s[i] is Separator) by {
        if r {
            if g {
                assert(i < 4);
            }
        }
    }
}

proof fn lemma_pane_entries_no_separator(pane: PaneMenuState)
    ensures
        no_separator(pane_entries(pane)),
{
    let s = pane_entries(pane);
    assert forall|i: int| 0 <= i < s.len() implies !(#[trigger] s[i] is Separator) by {}
}

proof fn lemma_block_entries_well_separated(selection: BlockSelection, t: TailBlock, prompt: PromptMenuState)
    ensures
        well_separated(block_entries(selection, t, prompt)),
{
    let single = selection.is_singleton;
    let copies = block_copy_entries(single, t);
    assert(no_separator(copies));
    lemma_no_separator_well_separated(copies);
    let find = seq![
        item(
            MenuLabel::FindWithinBlocks { plural: !single },
            MenuAction::ContextMenu(ContextMenuAction::FindWithinBlock),
            binding(KeyBindingName::TerminalFind),
            false,
        ),
    ];
    let scroll = seq![
        item(
            MenuLabel::ScrollToTopOfBlocks { plural: !single },
            MenuAction::ContextMenu(ContextMenuAction::ScrollToTopOfBlock),
            binding(KeyBindingName::ScrollToTopOfSelectedBlock),
            false,
        ),
        item(
            MenuLabel::ScrollToBottomOfBlocks { plural: !single },
            MenuAction::ContextMenu(ContextMenuAction::ScrollToBottomOfBlock),
            binding(KeyBindingName::ScrollToBottomOfSelectedBlock),
            false,
        ),
    ];
    assert(no_separator(find));
    assert(no_separator(scroll));
    lemma_no_separator_well_separated(find);
    lemma_no_separator_well_separated(scroll);
    let head = if single {
        let p = copy_prompt_entries(
            prompt.is_on_git_branch,
            prompt.is_rprompt_shown,
            PromptPosition::Block(selection.tail),
        );
        lemma_copy_prompt_entries_no_separator(
            prompt.is_on_git_branch,
            prompt.is_rprompt_shown,
            PromptPosition::Block(selection.tail),
        );
        lemma_no_separator_well_separated(p);
        lemma_join_well_separated(copies, p);
        copies + seq![MenuEntry::Separator] + p
    } else {
        copies
    };
    assert(well_separated(head));
    assert(head.len() > 0);
    lemma_join_well_separated(head, find);
    lemma_join_well_separated(head + seq![MenuEntry::Separator] + find, scroll);
    if single {
        assert(block_entries(selection, t, prompt) =~= head + seq![MenuEntry::Separator] + find + seq![
            MenuEntry::Separator,
        ] + scroll);
    } else {
        assert(block_entries(selection, t, prompt) =~= head + seq![MenuEntry::Separator] + find + seq![
            MenuEntry::Separator,
        ] + scroll);
    }
}

/// A separator is only put between entries: the block-list menu never starts
/// or ends with one, and never shows two in a row.
pub proof fn law_block_list_menu_well_separated(
    source: BlockListMenuSourceKind,
    link: Option<HighlightedLink>,
    selection: Option<BlockSelection>,
    prompt: PromptMenuState,
    pane: PaneMenuState,
    is_macos: bool,
)
    ensures
        well_separated(block_list_menu(source, link, selection, prompt, pane, is_macos)),
{
    lemma_pane_entries_no_separator(pane);
    lemma_no_separator_well_separated(pane_entries(pane));
    match block_list_entries(source, link, selection, prompt, is_macos) {
        None => {},
        Some(base) => {
            match link {
                Some(l) => {
                    if is_block_click(source) {
                        let e = link_entries(l, is_macos);
                        assert(no_separator(e));
                        lemma_no_separator_well_separated(e);
                    }
                },
                None => match selection {
                    None => {
                        assert(no_separator(selected_text_entries()));
                        lemma_no_separator_well_separated(selected_text_entries());
                    },
                    Some(sel) => {
                        if is_block_menu(source) {
                            lemma_block_entries_well_separated(sel, sel.tail_block->0, prompt);
                        }
                    },
                },
            }
            assert(well_separated(base));
            if has_pane_entries(source) {
                lemma_then_section_well_separated(base, pane_entries(pane));
            }
        },
    }
}

/// In the block-list menu for a single selected block, the third entry is "Copy output",
/// which copies the block's output and is disabled exactly when the block's output grid is
/// empty, whether or not a filter is active. With a filter, the key binding belongs to
/// "Copy filtered output" (the second entry), and "Copy output" shows none.
pub proof fn law_single_block_copy_output_entry(
    source: BlockListMenuSourceKind,
    sel: BlockSelection,
    prompt: PromptMenuState,
    pane: PaneMenuState,
    is_macos: bool,
)
    requires
        is_block_menu(source),
        sel.is_singleton,
        sel.tail_block is Some,
    ensures
        ({
            let t = sel.tail_block->0;
            let m = block_list_menu(source, None, Some(sel), prompt, pane, is_macos);
            &&& m.len() > 2
            &&& m[2] matches MenuEntry::Item {
                label: MenuLabel::CopyOutput,
                action: MenuAction::ContextMenu(ContextMenuAction::CopyBlockOutputs),
                shortcut,
                disabled,
            }
            &&& m[2]->disabled == t.output_grid_is_empty
            &&& m[2]->shortcut == if t.has_active_filter {
                None
            } else {
                binding(KeyBindingName::TerminalCopyOutputs)
            }
            &&& t.has_active_filter ==> (m[1] matches MenuEntry::Item {
                label: MenuLabel::CopyFilteredOutput,
                action: MenuAction::ContextMenu(ContextMenuAction::CopyBlockFilteredOutputs),
                shortcut,
                disabled,
            } && !disabled && shortcut == binding(KeyBindingName::TerminalCopyOutputs))
        }),
{
    let t = sel.tail_block->0;
    let base = block_entries(sel, t, prompt);
    let copies = block_copy_entries(true, t);
    assert(copies.len() >= 3);
    assert(base[2] == copies[2]);
    assert(base[1] == copies[1]);
    lemma_pane_entries_no_separator(pane);
    let m = block_list_menu(source, None, Some(sel), prompt, pane, is_macos);
    if has_pane_entries(source) {
        assert(m[2] == base[2]);
        assert(m[1] == base[1]);
    }
}

/// The label of an entry; `None` for a separator.
pub open spec fn label_of(e: MenuEntry) -> Option<MenuLabel> {
    match e {
        MenuEntry::Item { label, .. } => Some(label),
        MenuEntry::Separator => None,
    }
}

/// Whether an entry is an item that is disabled.
pub open spec fn is_disabled(e: MenuEntry) -> bool {
    e matches MenuEntry::Item { disabled, .. } && disabled
}

/// The copy entries of the block-list menu for selected blocks: "Copy" comes first and is
/// disabled only for a single block whose command and output are both blank; "Copy
/// command(s)" (plural for several blocks) is disabled only for a single block with a blank
/// command, and comes second, or fourth behind the two output entries when a filter is
/// active; several blocks get just these two.
pub proof fn law_block_copy_entries_flags(
    source: BlockListMenuSourceKind,
    sel: BlockSelection,
    prompt: PromptMenuState,
    pane: PaneMenuState,
    is_macos: bool,
)
    requires
        is_block_menu(source),
        sel.tail_block is Some,
    ensures
        ({
            let t = sel.tail_block->0;
            let single = sel.is_singleton;
            let m = block_list_menu(source, None, Some(sel), prompt, pane, is_macos);
            let k: int = if single && t.has_active_filter {
                3
            } else {
                1
            };
            &&& m.len() > k
            &&& label_of(m[0]) == Some(MenuLabel::Copy)
            &&& m[0] matches MenuEntry::Item { action: MenuAction::ContextMenu(ContextMenuAction::CopyBlocks), .. }
            &&& is_disabled(m[0]) <==> single && t.command_is_blank && t.output_is_blank
            &&& label_of(m[k]) == Some(MenuLabel::CopyCommands { plural: !single })
            &&& m[k] matches MenuEntry::Item { action: MenuAction::ContextMenu(ContextMenuAction::CopyBlockCommands), .. }
            &&& is_disabled(m[k]) <==> single && t.command_is_blank
            &&& !single ==> m[2] == MenuEntry::Separator
        }),
{
    let t = sel.tail_block->0;
    let base = block_entries(sel, t, prompt);
    let copies = block_copy_entries(sel.is_singleton, t);
    assert(copies.len() >= 2);
    assert forall|i: int| 0 <= i < copies.len() implies base[i] == copies[i] by {}
    if !sel.is_singleton {
        assert(base[2] == block_navigation_entries(false)[0]);
    }
    lemma_pane_entries_no_separator(pane);
    let m = block_list_menu(source, None, Some(sel), prompt, pane, is_macos);
    if has_pane_entries(source) {
        assert forall|i: int| 0 <= i < base.len() implies m[i] == base[i] by {}
    }
}

/// The pane entries: the four split entries, in the order right, left, down, up, exactly
/// where new sessions can be created; then, exactly in a split pane, the entry that
/// maximizes or restores the pane (worded for its current state) and the one that closes it.
pub proof fn law_pane_entries(pane: PaneMenuState)
    ensures
        ({
            let m = pane_entries(pane);
            let s: int = if pane.can_create_session {
                4
            } else {
                0
            };
            &&& m.len() == s + if pane.is_in_split_pane {
                2int
            } else {
                0int
            }
            &&& pane.can_create_session ==> label_of(m[0]) == Some(MenuLabel::SplitPaneRight)
                && label_of(m[1]) == Some(MenuLabel::SplitPaneLeft) && label_of(m[2]) == Some(
                MenuLabel::SplitPaneDown,
            ) && label_of(m[3]) == Some(MenuLabel::SplitPaneUp)
            &&& pane.can_create_session ==> (m[0] matches MenuEntry::Item { action: MenuAction::SplitRight, .. })
                && (m[1] matches MenuEntry::Item { action: MenuAction::SplitLeft, .. }) && (m[2] matches MenuEntry::Item {
                action: MenuAction::SplitDown,
                ..
            }) && (m[3] matches MenuEntry::Item { action: MenuAction::SplitUp, .. })
            &&& pane.is_in_split_pane ==> label_of(m[s]) == Some(
                MenuLabel::ToggleMaximizePane { is_maximized: pane.is_maximized },
            ) && label_of(m[s + 1]) == Some(MenuLabel::ClosePane) && (m[s + 1] matches MenuEntry::Item {
                action: MenuAction::Close,
                ..
            })
            &&& forall|i: int| 0 <= i < m.len() ==> !is_disabled(#[trigger] m[i])
        }),
{
}

/// The link entries: a URL gets one entry that copies exactly that URL; a file with a path
/// gets one that copies the path and one that shows it in the file manager ("Show in
/// Finder" on macOS, "Show containing folder" elsewhere), and a Markdown file two more that
/// open it in Warp and in the editor; a file without a path gets none.
pub proof fn law_link_entries(link: HighlightedLink, is_macos: bool)
    ensures
        ({
            let m = link_entries(link, is_macos);
            &&& link matches HighlightedLink::Url { url_content } ==> m.len() == 1 && (m[0] matches MenuEntry::Item {
                label: MenuLabel::CopyUrl,
                action: MenuAction::ContextMenu(ContextMenuAction::CopyUrl { url_content: u }),
                ..
            } && u == url_content)
            &&& link matches HighlightedLink::File { path: None, .. } ==> m.len() == 0
            &&& link matches HighlightedLink::File { path: Some(p), is_markdown } ==> {
                &&& m.len() == if is_markdown {
                    4int
                } else {
                    2int
                }
                &&& m[0] matches MenuEntry::Item {
                    label: MenuLabel::CopyPath,
                    action: MenuAction::ContextMenu(ContextMenuAction::CopyUrl { url_content: u }),
                    ..
                } && u == p
                &&& label_of(m[1]) == Some(
                    if is_macos {
                        MenuLabel::ShowInFinder
                    } else {
                        MenuLabel::ShowContainingFolder
                    },
                )
                &&& m[1] matches MenuEntry::Item { action: MenuAction::ShowInFileExplorer(q), .. } && q == p
                &&& is_markdown ==> (m[2] matches MenuEntry::Item {
                    label: MenuLabel::OpenInWarp,
                    action: MenuAction::OpenFileInWarp(q),
                    ..
                } && q == p) && label_of(m[3]) == Some(MenuLabel::OpenInEditor)
            }
        }),
{
}

/// The input's menu: cut and copy come first exactly when text is selected; "Select all"
/// comes first exactly when there is text but none is selected; "Paste" always follows.
pub proof fn law_input_menu_entries(
    has_input_text: bool,
    has_selected_text: bool,
    show_hint_text: bool,
    pane: PaneMenuState,
)
    ensures
        ({
            let m = input_menu(has_input_text, has_selected_text, show_hint_text, pane);
            let k: int = if has_selected_text {
                2
            } else if has_input_text {
                1
            } else {
                0
            };
            &&& m.len() > k + 4
            &&& has_selected_text ==> label_of(m[0]) == Some(MenuLabel::Cut) && label_of(m[1]) == Some(
                MenuLabel::Copy,
            )
            &&& !has_selected_text && has_input_text ==> label_of(m[0]) == Some(MenuLabel::SelectAll)
            &&& label_of(m[k]) == Some(MenuLabel::Paste)
            &&& label_of(m[k + 2]) == Some(MenuLabel::CommandSearch)
            &&& label_of(m[k + 4]) == Some(MenuLabel::InputHintText { shown: show_hint_text })
        }),
{
}

/// The prompt's copy entries: "Copy prompt" (the entire prompt at that position) first, then
/// "Copy right prompt" exactly when a right prompt is shown, then "Copy working directory"
/// (the directory part at that position), then "Copy git branch" exactly on a git branch.
pub proof fn law_copy_prompt_entries(on_git_branch: bool, rprompt_shown: bool, position: PromptPosition)
    ensures
        ({
            let m = copy_prompt_entries(on_git_branch, rprompt_shown, position);
            let r: int = if rprompt_shown {
                1
            } else {
                0
            };
            &&& m.len() == 2 + r + if on_git_branch {
                1int
            } else {
                0int
            }
            &&& m[0] matches MenuEntry::Item {
                label: MenuLabel::CopyPrompt,
                action: MenuAction::ContextMenu(ContextMenuAction::CopyPrompt { position: p, part: PromptPart::EntirePrompt }),
                ..
            } && p == position
            &&& rprompt_shown ==> label_of(m[1]) == Some(MenuLabel::CopyRightPrompt)
            &&& m[1 + r] matches MenuEntry::Item {
                label: MenuLabel::CopyWorkingDirectory,
                action: MenuAction::ContextMenu(ContextMenuAction::CopyPrompt { position: p, part: PromptPart::Pwd }),
                ..
            } && p == position
            &&& on_git_branch ==> (m[2 + r] matches MenuEntry::Item {
                label: MenuLabel::CopyGitBranch,
                action: MenuAction::ContextMenu(ContextMenuAction::CopyPrompt { position: p, part: PromptPart::GitBranch }),
                ..
            } && p == position)
        }),
{
}

/// The finding and scrolling entries speak of "blocks" for several selected blocks and of
/// "block" for one; the alternate screen's menu offers "Copy" (with ⌘-C) exactly when text
/// is selected there.
pub proof fn law_navigation_and_alt_screen_entries(single: bool, has_selection: bool, pane: PaneMenuState)
    ensures
        label_of(block_navigation_entries(single)[1]) == Some(MenuLabel::FindWithinBlocks { plural: !single }),
        label_of(block_navigation_entries(single)[3]) == Some(MenuLabel::ScrollToTopOfBlocks { plural: !single }),
        label_of(block_navigation_entries(single)[4]) == Some(
            MenuLabel::ScrollToBottomOfBlocks { plural: !single },
        ),
        has_selection ==> (alt_screen_menu(has_selection, pane)[0] matches MenuEntry::Item {
            label: MenuLabel::Copy,
            action: MenuAction::ContextMenu(ContextMenuAction::CopySelectedText),
            shortcut: Some(MenuShortcut::CommandC),
            ..
        }),
        !has_selection ==> alt_screen_menu(has_selection, pane) == pane_entries(pane),
{
    if !has_selection {
        assert(alt_screen_menu(has_selection, pane) =~= pane_entries(pane));
    }
}

/// What the block-list menu leads with: a click on a block with a link under the mouse
/// leads with the link's entries; a click on text with no block selected offers copying the
/// text and inserting it into the input; a block selection whose last block is missing from
/// the block list gives an empty menu; and the overflow button and the key binding add no
/// pane entries.
pub proof fn law_block_list_menu_leads_with(
    source: BlockListMenuSourceKind,
    link: Option<HighlightedLink>,
    selection: Option<BlockSelection>,
    prompt: PromptMenuState,
    pane: PaneMenuState,
    is_macos: bool,
)
    ensures
        ({
            let m = block_list_menu(source, link, selection, prompt, pane, is_macos);
            &&& is_block_click(source) ==> (link matches Some(l) ==> m.take(
                link_entries(l, is_macos).len() as int,
            ) == link_entries(l, is_macos))
            &&& link is None && selection is None && is_text_click(source) ==> (m[0] matches MenuEntry::Item {
                label: MenuLabel::Copy,
                action: MenuAction::ContextMenu(ContextMenuAction::CopySelectedText),
                ..
            }) && (m[1] matches MenuEntry::Item {
                label: MenuLabel::InsertIntoInput,
                action: MenuAction::ContextMenu(ContextMenuAction::InsertSelectedText),
                ..
            })
            &&& link is None && is_block_menu(source) ==> (selection matches Some(sel) ==> (
            sel.tail_block is None ==> m.len() == 0))
            &&& !has_pane_entries(source) ==> (block_list_entries(source, link, selection, prompt, is_macos) matches Some(
                base,
            ) ==> m == base)
        }),
{
    match block_list_entries(source, link, selection, prompt, is_macos) {
        Some(base) => {
            if has_pane_entries(source) {
                let m = block_list_menu(source, link, selection, prompt, pane, is_macos);
                assert(m.take(base.len() as int) =~= base);
                if link is None && selection is None && is_text_click(source) {
                    assert(m[0] == base[0]);
                    assert(m[1] == base[1]);
                }
            }
        },
        None => {},
    }
}

/// The wording of labels: a label for several blocks is the one for a single block with an
/// `s` added; the hint-text entry says "Hide" while the hint is shown and "Show" otherwise,
/// with the same rest; and the copy entries read "Copy ..." ("Copy output", "Copy filtered
/// output", "Copy command", "Copy URL", "Copy path", "Copy prompt").
pub proof fn law_label_wording()
    ensures
        menu_label_text(MenuLabel::CopyCommands { plural: true }) == Some(
            menu_label_text(MenuLabel::CopyCommands { plural: false })->0.push('s'),
        ),
        menu_label_text(MenuLabel::FindWithinBlocks { plural: true }) == Some(
            menu_label_text(MenuLabel::FindWithinBlocks { plural: false })->0.push('s'),
        ),
        menu_label_text(MenuLabel::ScrollToTopOfBlocks { plural: true }) == Some(
            menu_label_text(MenuLabel::ScrollToTopOfBlocks { plural: false })->0.push('s'),
        ),
        menu_label_text(MenuLabel::ScrollToBottomOfBlocks { plural: true }) == Some(
            menu_label_text(MenuLabel::ScrollToBottomOfBlocks { plural: false })->0.push('s'),
        ),
        menu_label_text(MenuLabel::InputHintText { shown: true }) == Some(
            "Hide"@ + menu_label_text(MenuLabel::InputHintText { shown: false })->0.skip(4),
        ),
        menu_label_text(MenuLabel::InputHintText { shown: false })->0.take(4) == "Show"@,
        menu_label_text(MenuLabel::CopyOutput) == Some("Copy output"@),
        menu_label_text(MenuLabel::CopyFilteredOutput) == Some("Copy filtered output"@),
        menu_label_text(MenuLabel::CopyCommands { plural: false }) == Some("Copy command"@),
        menu_label_text(MenuLabel::CopyUrl) == Some("Copy URL"@),
        menu_label_text(MenuLabel::CopyPath) == Some("Copy path"@),
        menu_label_text(MenuLabel::CopyPrompt) == Some("Copy prompt"@),
        key_binding_name(KeyBindingName::TerminalCopyOutputs) == "terminal:copy_outputs"@,
        key_binding_name(KeyBindingName::TerminalCopyCommands) == "terminal:copy_commands"@,
        key_binding_name(KeyBindingName::TerminalCopy) == "terminal:copy"@,
{
    reveal_strlit("Copy commands");
    reveal_strlit("Copy command");
    reveal_strlit("Find within blocks");
    reveal_strlit("Find within block");
    reveal_strlit("Scroll to top of blocks");
    reveal_strlit("Scroll to top of block");
    reveal_strlit("Scroll to bottom of blocks");
    reveal_strlit("Scroll to bottom of block");
    reveal_strlit("Hide input hint text");
    reveal_strlit("Show input hint text");
    reveal_strlit("Hide");
    reveal_strlit("Show");
    assert("Copy commands"@ =~= "Copy command"@.push('s'));
    assert("Find within blocks"@ =~= "Find within block"@.push('s'));
    assert("Scroll to top of blocks"@ =~= "Scroll to top of block"@.push('s'));
    assert("Scroll to bottom of blocks"@ =~= "Scroll to bottom of block"@.push('s'));
    assert("Hide input hint text"@ =~= "Hide"@ + "Show input hint text"@.skip(4));
    assert("Show input hint text"@.take(4) =~= "Show"@);
}

/// The alternate screen's menu never starts or ends with a separator, and
/// never shows two in a row.
pub proof fn law_alt_screen_menu_well_separated(has_selection: bool, pane: PaneMenuState)
    ensures
        well_separated(alt_screen_menu(has_selection, pane)),
{
    lemma_pane_entries_no_separator(pane);
    lemma_no_separator_well_separated(pane_entries(pane));
    let base = if has_selection {
        seq![
            item(
                MenuLabel::Copy,
                MenuAction::ContextMenu(ContextMenuAction::CopySelectedText),
                Some(MenuShortcut::CommandC),
                false,
            ),
        ]
    } else {
        Seq::empty()
    };
    assert(no_separator(base));
    lemma_no_separator_well_separated(base);
    lemma_then_section_well_separated(base, pane_entries(pane));
}

/// The input's menu never starts or ends with a separator, and never shows
/// two in a row.
pub proof fn law_input_menu_well_separated(
    has_input_text: bool,
    has_selected_text: bool,
    show_hint_text: bool,
    pane: PaneMenuState,
)
    ensures
        well_separated(input_menu(has_input_text, has_selected_text, show_hint_text, pane)),
{
    let p = pane_entries(pane);
    lemma_pane_entries_no_separator(pane);
    lemma_no_separator_well_separated(p);
    let first = (if has_selected_text {
        seq![
            item(MenuLabel::Cut, MenuAction::InputContextMenuItem(InputContextMenuAction::CutSelectedText), None, false),
            item(
                MenuLabel::Copy,
                MenuAction::InputContextMenuItem(InputContextMenuAction::CopySelectedText),
                binding(KeyBindingName::TerminalCopy),
                false,
            ),
        ]
    } else {
        Seq::empty()
    }) + (if has_input_text && !has_selected_text {
        seq![
            item(
                MenuLabel::SelectAll,
                MenuAction::InputContextMenuItem(InputContextMenuAction::SelectAll),
                binding(KeyBindingName::EditorSelectAll),
                false,
            ),
        ]
    } else {
        Seq::empty()
    }) + seq![
        item(
            MenuLabel::Paste,
            MenuAction::InputContextMenuItem(InputContextMenuAction::Paste),
            binding(KeyBindingName::TerminalPaste),
            false,
        ),
    ];
    let search = seq![
        item(
            MenuLabel::CommandSearch,
            MenuAction::InputContextMenuItem(InputContextMenuAction::ShowCommandSearch),
            binding(KeyBindingName::ShowCommandSearch),
            false,
        ),
    ];
    let hint = seq![
        item(
            MenuLabel::InputHintText { shown: show_hint_text },
            MenuAction::InputContextMenuItem(InputContextMenuAction::ToggleInputHintText),
            None,
            false,
        ),
    ];
    assert(no_separator(first));
    assert(no_separator(search));
    assert(no_separator(hint));
    lemma_no_separator_well_separated(first);
    lemma_no_separator_well_separated(search);
    lemma_no_separator_well_separated(hint);
    lemma_join_well_separated(first, search);
    let fs = first + seq![MenuEntry::Separator] + search;
    lemma_join_well_separated(fs, hint);
    let fsh = fs + seq![MenuEntry::Separator] + hint;
    lemma_then_section_well_separated(fsh, p);
    assert(input_menu(has_input_text, has_selected_text, show_hint_text, pane) =~= then_section(fsh, p));
}

/// The prompt's menu never starts or ends with a separator, and never shows
/// two in a row, when the prompt's own part entries do not.
pub proof fn law_prompt_menu_well_separated(
    honor_ps1: bool,
    is_rprompt_shown: bool,
    prompt_part_entries: Seq<MenuEntry>,
)
    requires
        well_separated(prompt_part_entries),
    ensures
        well_separated(prompt_menu(honor_ps1, is_rprompt_shown, prompt_part_entries)),
{
    let copy = seq![
        item(
            MenuLabel::CopyPrompt,
            MenuAction::ContextMenu(
                ContextMenuAction::CopyPrompt { position: PromptPosition::Input, part: PromptPart::EntirePrompt },
            ),
            None,
            false,
        ),
    ];
    let rprompt = if honor_ps1 && is_rprompt_shown {
        seq![item(MenuLabel::CopyRightPrompt, MenuAction::ContextMenu(ContextMenuAction::CopyRprompt), None, false)]
    } else {
        Seq::empty()
    };
    let edit = seq![item(MenuLabel::EditPrompt, MenuAction::ContextMenu(ContextMenuAction::EditPrompt), None, false)];
    assert(no_separator(copy + rprompt));
    assert(no_separator(edit));
    lemma_no_separator_well_separated(copy + rprompt);
    lemma_no_separator_well_separated(edit);
    let head = if honor_ps1 {
        copy + rprompt
    } else {
        then_section(copy, prompt_part_entries)
    };
    if !honor_ps1 {
        lemma_no_separator_well_separated(copy);
        lemma_then_section_well_separated(copy, prompt_part_entries);
    }
    assert(head.len() > 0);
    lemma_join_well_separated(head, edit);
    assert(prompt_menu(honor_ps1, is_rprompt_shown, prompt_part_entries) =~= head + seq![
        MenuEntry::Separator,
    ] + edit);
}

} // verus!
