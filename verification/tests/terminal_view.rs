use warp_app::context_chips::ContextChipKind;
use warp_app::inline_banners::{InlineBannerItem, InlineBannerType, InlineBannersState};
use warp_app::terminal_view::{paste_target, prompt_text_to_copy, BlockPromptParts, PasteTarget};
use warp_app::terminal_view::{
    command_first_word_and_suffix, BlockEntity, BlockIndex, ContextMenuAction,
    InputContextMenuAction, PromptPart, PromptPosition, PromptSuggestion, RememberForWarpification,
};
use warp_app::interaction_mode::{
    context_bounds_for_input, input_contents_text, GridPoint, InputContextBounds, InteractionMode,
};

#[test]
fn prompt_suggestion_label_defaults_to_prompt() {
    let mut s = PromptSuggestion { prompt: "explain this".to_string(), ..Default::default() };
    assert_eq!(s.label(), "explain this");
    assert!(!s.is_static_prompt_suggestion());
    s.label = Some("Explain".to_string());
    s.static_prompt_suggestion_name = Some("explain".to_string());
    assert_eq!(s.label(), "Explain");
    assert!(s.is_static_prompt_suggestion());
}

#[test]
fn banner_ids_count_up() {
    let mut state = InlineBannersState::new();
    assert_eq!(state.last_banner_id(), None);
    assert_eq!(state.next_banner_id(), 0);
    assert_eq!(state.next_banner_id(), 1);
    assert_eq!(state.last_banner_id(), Some(1));
    let item = InlineBannerItem::new(1, InlineBannerType::VimMode);
    assert_eq!(item.id, 1);
    assert_eq!(item.banner_type, InlineBannerType::VimMode);
}

#[test]
fn block_entity_names() {
    assert_eq!(BlockEntity::Command.as_str(), "Command");
    assert_eq!(BlockEntity::Output.as_str(), "Output");
    assert_eq!(BlockEntity::FilteredOutput.as_str(), "FilteredOutput");
    assert_eq!(BlockEntity::CommandAndOutput.as_str(), "Both");
}

#[test]
fn context_menu_action_log_text_hides_urls() {
    assert_eq!(
        ContextMenuAction::CopyUrl { url_content: "https://secret".to_string() }.debug_text(),
        "CopyUrl"
    );
    assert_eq!(
        ContextMenuAction::CopyBlockFilteredOutputs.debug_text(),
        "CopyBlockFilteredOutput"
    );
    assert_eq!(
        ContextMenuAction::CopyPrompt {
            position: PromptPosition::Block(BlockIndex(12)),
            part: PromptPart::ContextChip(ContextChipKind::GithubPullRequest),
        }
        .debug_text(),
        "CopyPrompt { position: Block(BlockIndex(12)), part: ContextChip(GithubPullRequest) }"
    );
    assert_eq!(
        ContextMenuAction::CopyPrompt { position: PromptPosition::Input, part: PromptPart::Pwd }
            .debug_text(),
        "CopyPrompt { position: Input, part: Pwd }"
    );
    assert_eq!(InputContextMenuAction::ShowCommandSearch.debug_text(), "CommandSearch");
}

#[test]
fn remember_for_warpification_flags() {
    assert!(RememberForWarpification::RememberSSHHost("h".to_string()).as_bool());
    assert!(RememberForWarpification::RememberSSHHost("h".to_string()).is_ssh());
    assert!(!RememberForWarpification::DoNotRememberSubshellCommand.as_bool());
    assert!(!RememberForWarpification::DoNotRememberSubshellCommand.is_ssh());
    assert!(RememberForWarpification::DoNotRememberSSHHost.is_ssh());
}

#[test]
fn first_word_and_suffix_of_command() {
    assert_eq!(
        command_first_word_and_suffix("  git commit -m x"),
        Some(("git".to_string(), " commit -m x".to_string()))
    );
    assert_eq!(command_first_word_and_suffix("ls"), Some(("ls".to_string(), String::new())));
    assert_eq!(command_first_word_and_suffix(" \t "), None);
}

#[test]
fn interaction_mode_defaults_to_user() {
    assert!(matches!(InteractionMode::default(), InteractionMode::User(_)));
}

#[test]
fn input_context_with_row_limit() {
    let cursor = GridPoint { row: 10, col: 4 };
    let b = context_bounds_for_input(cursor, 80, 30, 40, Some(6));
    assert_eq!(b.end, GridPoint { row: 13, col: 79 });
    assert_eq!(b.start, GridPoint { row: 7, col: 0 });
    assert_eq!(b.before_cursor, GridPoint { row: 10, col: 3 });
    assert_eq!(b.cursor, cursor);
    assert!(!b.newline_before_cursor);
    // The last row with content bounds the context.
    let b = context_bounds_for_input(cursor, 80, 11, 40, Some(6));
    assert_eq!(b.end, GridPoint { row: 11, col: 79 });
    assert_eq!(b.start, GridPoint { row: 5, col: 0 });
}

#[test]
fn input_context_whole_grid_and_first_column() {
    let cursor = GridPoint { row: 0, col: 0 };
    let b = context_bounds_for_input(cursor, 0, 0, 0, None);
    assert_eq!(b.start, GridPoint { row: 0, col: 0 });
    assert_eq!(b.end, GridPoint { row: 0, col: 0 });
    assert_eq!(b.before_cursor, GridPoint { row: 0, col: 0 });
    assert!(b.newline_before_cursor);
    let b = context_bounds_for_input(GridPoint { row: 5, col: 0 }, 20, 9, 12, None);
    assert_eq!(b.end, GridPoint { row: 11, col: 19 });
    assert_eq!(b.before_cursor, GridPoint { row: 4, col: 19 });
}

#[test]
fn input_context_text() {
    let b: InputContextBounds = context_bounds_for_input(GridPoint { row: 2, col: 0 }, 10, 5, 6, Some(4));
    assert_eq!(input_contents_text(&b, "$ ls", "<|cursor|>", "out"), "$ ls\n<|cursor|>out");
    let b = context_bounds_for_input(GridPoint { row: 2, col: 3 }, 10, 5, 6, Some(4));
    assert_eq!(input_contents_text(&b, "$ l", "<|cursor|>", "s"), "$ l<|cursor|>s");
}

#[test]
fn prompt_parts_to_copy() {
    let parts = BlockPromptParts {
        git_branch: Some("main".to_string()),
        conda_env: None,
        pwd: Some("/home/me".to_string()),
        virtual_env_short_name: Some("venv".to_string()),
    };
    let at_block = PromptPosition::Block(BlockIndex(2));
    let copy = |part: PromptPart, block: Option<BlockPromptParts>, chip: Option<String>| {
        prompt_text_to_copy(at_block, &part, "me@host ~ $".to_string(), block, chip)
    };
    assert_eq!(copy(PromptPart::EntirePrompt, None, None), "me@host ~ $");
    assert_eq!(copy(PromptPart::GitBranch, Some(parts.clone()), None), "main");
    assert_eq!(copy(PromptPart::CondaContext, Some(parts.clone()), None), "");
    assert_eq!(copy(PromptPart::Pwd, Some(parts.clone()), None), "/home/me");
    assert_eq!(copy(PromptPart::VirtualEnv, Some(parts.clone()), None), "venv");
    assert_eq!(copy(PromptPart::Pwd, None, None), "");
    assert_eq!(
        copy(PromptPart::ContextChip(ContextChipKind::GithubPullRequest), Some(parts), Some("#12".to_string())),
        ""
    );
    assert_eq!(
        prompt_text_to_copy(
            PromptPosition::Input,
            &PromptPart::ContextChip(ContextChipKind::GithubPullRequest),
            String::new(),
            None,
            Some("#12".to_string())
        ),
        "#12"
    );
}

#[test]
fn paste_goes_to_input_or_process() {
    assert_eq!(
        paste_target("a\nb".to_string(), true, true, false, true),
        PasteTarget::Input("a\nb".to_string())
    );
    assert_eq!(
        paste_target("a\nb".to_string(), true, false, true, false),
        PasteTarget::Input("a\nb".to_string())
    );
    assert_eq!(
        paste_target("a\r\nb\nc\r".to_string(), true, false, false, false),
        PasteTarget::Pty("a\rb\rc\r".to_string())
    );
    assert_eq!(
        paste_target("x\n".to_string(), false, true, true, true),
        PasteTarget::Pty("\x1b[200~x\r\x1b[201~".to_string())
    );
}
