use warp_app::context_menu::{
    alt_screen_context_menu_items, context_menu_items, copy_prompt_menu_items,
    input_context_menu_items, pane_context_menu_items, prompt_context_menu_items,
    BlockListMenuSourceKind, BlockSelection, HighlightedLink, KeyBindingName, MenuAction, MenuEntry,
    MenuLabel, MenuShortcut, PaneMenuState, PromptMenuState, TailBlock,
};
use warp_app::terminal_view::{BlockIndex, ContextMenuAction, PromptPosition};

/// One line per entry: the label's words (or `?`), a `!` when disabled, and
/// the shortcut's binding name when it has one.
fn render(entries: &[MenuEntry]) -> Vec<String> {
    entries
        .iter()
        .map(|e| match e {
            MenuEntry::Separator => "---".to_string(),
            MenuEntry::Item { label, shortcut, disabled, .. } => {
                let mut s = label.text().unwrap_or("?").to_string();
                if *disabled {
                    s.push('!');
                }
                match shortcut {
                    Some(MenuShortcut::Binding(b)) => {
                        s.push_str(" @");
                        s.push_str(b.name());
                    }
                    Some(MenuShortcut::CloseCurrentSession) => s.push_str(" @close"),
                    Some(MenuShortcut::CommandC) => s.push_str(" @cmd-c"),
                    None => {}
                }
                s
            }
        })
        .collect()
}

const NO_PANE: PaneMenuState =
    PaneMenuState { can_create_session: false, is_in_split_pane: false, is_maximized: false };
const NO_PROMPT: PromptMenuState = PromptMenuState { is_on_git_branch: false, is_rprompt_shown: false };

#[test]
fn single_block_menu_with_filter() {
    let selection = BlockSelection {
        tail: BlockIndex(3),
        is_singleton: true,
        tail_block: Some(TailBlock {
            command_is_blank: true,
            output_is_blank: false,
            output_grid_is_empty: false,
            has_active_filter: true,
        }),
    };
    let items = context_menu_items(
        BlockListMenuSourceKind::BlockOverflowButton,
        None,
        Some(selection),
        PromptMenuState { is_on_git_branch: true, is_rprompt_shown: false },
        NO_PANE,
        true,
    );
    assert_eq!(
        render(&items),
        vec![
            "Copy @terminal:copy",
            "Copy filtered output @terminal:copy_outputs",
            "Copy output",
            "Copy command! @terminal:copy_commands",
            "---",
            "Copy prompt",
            "Copy working directory",
            "Copy git branch",
            "---",
            "Find within block @terminal:find",
            "---",
            "Scroll to top of block @terminal:scroll_to_top_of_selected_block",
            "Scroll to bottom of block @terminal:scroll_to_bottom_of_selected_block",
        ]
    );
    match &items[5] {
        MenuEntry::Item {
            action: MenuAction::ContextMenu(ContextMenuAction::CopyPrompt { position, .. }),
            ..
        } => assert!(matches!(position, PromptPosition::Block(BlockIndex(3)))),
        _ => panic!("expected the prompt of the selected block"),
    }
}

#[test]
fn several_blocks_menu_with_pane_entries() {
    let selection = BlockSelection {
        tail: BlockIndex(0),
        is_singleton: false,
        tail_block: Some(TailBlock {
            command_is_blank: true,
            output_is_blank: true,
            output_grid_is_empty: true,
            has_active_filter: false,
        }),
    };
    let pane = PaneMenuState { can_create_session: true, is_in_split_pane: true, is_maximized: false };
    let items = context_menu_items(
        BlockListMenuSourceKind::RegularBlockRightClick,
        None,
        Some(selection),
        NO_PROMPT,
        pane,
        false,
    );
    assert_eq!(
        render(&items),
        vec![
            "Copy @terminal:copy",
            "Copy commands @terminal:copy_commands",
            "---",
            "Find within blocks @terminal:find",
            "---",
            "Scroll to top of blocks @terminal:scroll_to_top_of_selected_block",
            "Scroll to bottom of blocks @terminal:scroll_to_bottom_of_selected_block",
            "---",
            "Split pane right @pane_group:add_right",
            "Split pane left @pane_group:add_left",
            "Split pane down @pane_group:add_down",
            "Split pane up @pane_group:add_up",
            "? @pane_group:toggle_maximize_pane",
            "Close pane @close",
        ]
    );
    match &items[12] {
        MenuEntry::Item { label: MenuLabel::ToggleMaximizePane { is_maximized }, .. } => {
            assert!(!is_maximized)
        }
        _ => panic!("expected the maximize toggle"),
    }
}

#[test]
fn missing_selected_block_gives_empty_menu() {
    let selection = BlockSelection { tail: BlockIndex(9), is_singleton: true, tail_block: None };
    let pane = PaneMenuState { can_create_session: true, is_in_split_pane: false, is_maximized: false };
    let items = context_menu_items(
        BlockListMenuSourceKind::RegularBlockRightClick,
        None,
        Some(selection),
        NO_PROMPT,
        pane,
        true,
    );
    assert!(items.is_empty());
}

#[test]
fn link_menus() {
    let items = context_menu_items(
        BlockListMenuSourceKind::RegularBlockRightClick,
        Some(HighlightedLink::Url { url_content: "https://warp.dev".to_string() }),
        None,
        NO_PROMPT,
        NO_PANE,
        true,
    );
    assert_eq!(render(&items), vec!["Copy URL"]);
    match &items[0] {
        MenuEntry::Item { action: MenuAction::ContextMenu(ContextMenuAction::CopyUrl { url_content }), .. } => {
            assert_eq!(url_content, "https://warp.dev")
        }
        _ => panic!("expected the URL to be copied"),
    }
    let items = context_menu_items(
        BlockListMenuSourceKind::RichContentBlockRightClick,
        Some(HighlightedLink::File { path: Some("/tmp/notes.md".to_string()), is_markdown: true }),
        None,
        NO_PROMPT,
        NO_PANE,
        false,
    );
    assert_eq!(
        render(&items),
        vec!["Copy path", "Show containing folder", "Open in Warp", "Open in editor"]
    );
    match &items[2] {
        MenuEntry::Item { action: MenuAction::OpenFileInWarp(p), .. } => assert_eq!(p, "/tmp/notes.md"),
        _ => panic!("expected the file to open in Warp"),
    }
    // A link under a text click is ignored.
    let items = context_menu_items(
        BlockListMenuSourceKind::RegularTextRightClick,
        Some(HighlightedLink::File { path: None, is_markdown: false }),
        None,
        NO_PROMPT,
        NO_PANE,
        true,
    );
    assert!(items.is_empty());
}

#[test]
fn text_selection_menu() {
    let items = context_menu_items(
        BlockListMenuSourceKind::RichContentTextRightClick,
        None,
        None,
        NO_PROMPT,
        PaneMenuState { can_create_session: false, is_in_split_pane: true, is_maximized: true },
        true,
    );
    assert_eq!(
        render(&items),
        vec![
            "Copy @terminal:copy",
            "Insert into input",
            "---",
            "? @pane_group:toggle_maximize_pane",
            "Close pane @close",
        ]
    );
    // The overflow button with nothing selected shows nothing, not even pane entries.
    let items = context_menu_items(
        BlockListMenuSourceKind::BlockKeybinding,
        None,
        None,
        NO_PROMPT,
        PaneMenuState { can_create_session: true, is_in_split_pane: true, is_maximized: true },
        true,
    );
    assert!(items.is_empty());
}

#[test]
fn input_menu_entries() {
    assert_eq!(
        render(&input_context_menu_items(true, true, true, NO_PANE)),
        vec![
            "Cut",
            "Copy @terminal:copy",
            "Paste @terminal:paste",
            "---",
            "Command search @workspace:show_command_search",
            "---",
            "Hide input hint text",
        ]
    );
    assert_eq!(
        render(&input_context_menu_items(true, false, false, NO_PANE)),
        vec![
            "Select all @editor_view:select_all",
            "Paste @terminal:paste",
            "---",
            "Command search @workspace:show_command_search",
            "---",
            "Show input hint text",
        ]
    );
    let pane = PaneMenuState { can_create_session: false, is_in_split_pane: true, is_maximized: true };
    let items = input_context_menu_items(false, false, true, pane);
    assert_eq!(render(&items)[..4], ["Paste @terminal:paste", "---", "Command search @workspace:show_command_search", "---"]);
    assert_eq!(render(&items)[5..], ["---", "? @pane_group:toggle_maximize_pane", "Close pane @close"]);
}

#[test]
fn prompt_menu_entries() {
    assert_eq!(
        render(&prompt_context_menu_items(true, true, Vec::new())),
        vec!["Copy prompt", "Copy right prompt", "---", "Edit prompt"]
    );
    let parts = copy_prompt_menu_items(false, false, PromptPosition::Input);
    assert_eq!(
        render(&prompt_context_menu_items(false, true, parts)),
        vec!["Copy prompt", "---", "Copy prompt", "Copy working directory", "---", "Edit prompt"]
    );
    assert_eq!(render(&prompt_context_menu_items(false, false, Vec::new())), vec!["Copy prompt", "---", "Edit prompt"]);
}

#[test]
fn alt_screen_and_pane_menus() {
    assert_eq!(render(&alt_screen_context_menu_items(true, NO_PANE)), vec!["Copy @cmd-c"]);
    assert!(alt_screen_context_menu_items(false, NO_PANE).is_empty());
    let pane = PaneMenuState { can_create_session: true, is_in_split_pane: false, is_maximized: false };
    assert_eq!(render(&pane_context_menu_items(pane)).len(), 4);
    assert_eq!(
        render(&alt_screen_context_menu_items(true, pane))[..2],
        ["Copy @cmd-c", "---"]
    );
    assert_eq!(KeyBindingName::TerminalCopy.name(), "terminal:copy");
}
