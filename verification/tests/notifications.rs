use std::time::Duration;

use warp_app::notifications::NotificationsTrigger;

#[test]
fn discovery_banner_copy_per_trigger() {
    assert_eq!(
        NotificationsTrigger::LongRunningCommand(true, Duration::from_secs(3))
            .discovery_banner_copy(),
        "Warp can notify you when long-running commands finish."
    );
    assert_eq!(
        NotificationsTrigger::AgentTaskCompleted(false).discovery_banner_copy(),
        "Warp can notify you when an agent finishes responding."
    );
    assert_eq!(
        NotificationsTrigger::NeedsAttention.discovery_banner_copy(),
        "Warp can notify you when a command or agent needs your attention."
    );
    assert_eq!(
        NotificationsTrigger::PasswordPrompt.discovery_banner_copy(),
        "Warp can notify you when you're prompted to enter a password."
    );
}

#[test]
fn notification_for_finished_command_that_fits() {
    let n = NotificationsTrigger::LongRunningCommand(true, Duration::from_secs(12))
        .create_notification_content("  cargo build  ".to_string(), "done\n".to_string(), "12", 64, 256);
    assert_eq!(n.title, "'cargo build' finished after 12s");
    assert_eq!(n.body, "Latest output: done");
}

#[test]
fn notification_for_failed_agent_task() {
    let n = NotificationsTrigger::AgentTaskCompleted(false)
        .create_notification_content("fix it".to_string(), "oops".to_string(), "", 64, 256);
    assert_eq!(n.title, "'fix it' failed");
    assert_eq!(n.body, "Error: oops");
}

#[test]
fn notification_cuts_long_command_and_output() {
    // Title room for the command: 20 - 8 (" blocked") - 2 = 10 characters.
    let n = NotificationsTrigger::NeedsAttention.create_notification_content(
        "ssh user@host.example.com".to_string(),
        "line one\nline two\nline three".to_string(),
        "",
        20,
        10,
    );
    assert_eq!(n.title, "'ssh use...' blocked");
    // Body room: 10 characters, the last 7 shown after "...".
    assert_eq!(n.body, "...e three");
}

#[test]
fn notification_escapes_newlines_in_command() {
    let n = NotificationsTrigger::PasswordPrompt.create_notification_content(
        "echo a\necho b".to_string(),
        "".to_string(),
        "",
        100,
        100,
    );
    assert_eq!(n.title, "'echo a\\necho b' is waiting for a password");
    assert_eq!(n.body, "Latest output: ");
}

#[test]
fn notification_limits_are_checked() {
    let t = NotificationsTrigger::NeedsAttention;
    // " blocked" takes 8 characters, the quotes 2: a 10-character title leaves no room.
    assert!(t.notification_content_fits("", "", "", 10, 0));
    assert!(!t.notification_content_fits("ls", "", "", 10, 0));
    assert!(t.notification_content_fits("a long command", "", "", 13, 0));
    assert!(!t.notification_content_fits("", "", "", 9, 0));
    let t = NotificationsTrigger::AgentTaskCompleted(false);
    // "Error: " takes 7 characters of the body.
    assert!(!t.notification_content_fits("x", "", "", 64, 6));
    assert!(t.notification_content_fits("x", "output", "", 64, 10));
    assert!(!t.notification_content_fits("x", "output", "", 64, 9));
}

#[test]
fn long_command_and_output_are_cut_to_the_limits() {
    let command = "cargo build --release --all-features --workspace".to_string();
    let output = "line one\nline two\nline three and a long tail of output".to_string();
    let t = NotificationsTrigger::LongRunningCommand(false, Duration::from_secs(90));
    assert!(t.notification_content_fits(&command, &output, "90", 40, 30));
    let n = t.create_notification_content(command, output, "90", 40, 30);
    assert!(n.title.chars().count() <= 40);
    assert!(n.body.chars().count() <= 30);
    assert_eq!(n.title, "'cargo build --rele...' failed after 90s");
    assert!(n.title.ends_with(" failed after 90s"));
    assert_eq!(n.body, "Latest output: ...il of output");
}
