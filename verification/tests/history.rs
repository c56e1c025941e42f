use warp_app::history::{
    keep_latest_suggestions, sort_and_dedupe_suggestions, sort_suggestions_by_rank,
    up_arrow_suggestions, HistoryCommand, HistoryInputSuggestion, InputItemType,
    UpArrowHistoryConfig,
};

fn cmd(text: &str, rank: u64) -> HistoryInputSuggestion {
    HistoryInputSuggestion { text: text.to_string(), is_ai_query: false, rank }
}

fn ai(text: &str, rank: u64) -> HistoryInputSuggestion {
    HistoryInputSuggestion { text: text.to_string(), is_ai_query: true, rank }
}

fn texts(v: &[HistoryInputSuggestion]) -> Vec<(String, bool, u64)> {
    v.iter().map(|s| (s.text.clone(), s.is_ai_query, s.rank)).collect()
}

#[test]
fn config_for_unlocked_input_includes_both_types() {
    let c = UpArrowHistoryConfig::for_input_config(None);
    assert!(c.include_commands);
    assert!(c.include_prompts);
}

#[test]
fn config_for_locked_input_includes_only_that_type() {
    let c = UpArrowHistoryConfig::for_input_config(Some(InputItemType::Command));
    assert!(c.include_commands);
    assert!(!c.include_prompts);
    let p = UpArrowHistoryConfig::for_input_config(Some(InputItemType::Prompt));
    assert!(!p.include_commands);
    assert!(p.include_prompts);
}

#[test]
fn sort_is_stable_by_rank() {
    let sorted = sort_suggestions_by_rank(vec![cmd("c", 3), cmd("a", 1), cmd("b", 1), cmd("d", 0)]);
    assert_eq!(
        texts(&sorted),
        vec![
            ("d".to_string(), false, 0),
            ("a".to_string(), false, 1),
            ("b".to_string(), false, 1),
            ("c".to_string(), false, 3)
        ]
    );
}

#[test]
fn dedupe_keeps_last_occurrence_per_kind() {
    let kept = keep_latest_suggestions(vec![cmd("ls", 0), ai("ls", 1), cmd("ls", 2), cmd("pwd", 3)]);
    assert_eq!(
        texts(&kept),
        vec![
            ("ls".to_string(), true, 1),
            ("ls".to_string(), false, 2),
            ("pwd".to_string(), false, 3)
        ]
    );
}

#[test]
fn sort_and_dedupe_combines_both() {
    let r = sort_and_dedupe_suggestions(vec![cmd("ls", 5), cmd("pwd", 1), cmd("ls", 2)]);
    assert_eq!(
        texts(&r),
        vec![("pwd".to_string(), false, 1), ("ls".to_string(), false, 5)]
    );
}

#[test]
fn up_arrow_leaves_out_agent_commands() {
    let commands = vec![
        HistoryCommand { command: "git status".to_string(), is_agent_executed: false, rank: 1 },
        HistoryCommand { command: "rm -rf tmp".to_string(), is_agent_executed: true, rank: 2 },
        HistoryCommand { command: "git status".to_string(), is_agent_executed: false, rank: 3 },
    ];
    let r = up_arrow_suggestions(commands, UpArrowHistoryConfig::for_input_config(None));
    assert_eq!(texts(&r), vec![("git status".to_string(), false, 3)]);
}

#[test]
fn up_arrow_without_commands_is_empty() {
    let commands = vec![HistoryCommand {
        command: "ls".to_string(),
        is_agent_executed: false,
        rank: 0,
    }];
    let config = UpArrowHistoryConfig { include_commands: false, include_prompts: true };
    assert!(up_arrow_suggestions(commands, config).is_empty());
}
