use std::sync::Arc;

use warp_app::input_sync::{
    create_sync_event_based_on_terminal_state, forward_input_sync, receive_sync_input_event,
    SyncEvent, SyncInputEffect, SyncInputType, TerminalInputState,
};

#[test]
fn sync_event_from_editor_reaches_other_editors() {
    let event = create_sync_event_based_on_terminal_state(1, TerminalInputState::InputEditor, "git st".to_string());
    assert_eq!(event.source_view_id, 1);
    match &event.data {
        SyncInputType::InputEditorContentsChanged { contents } => assert_eq!(contents.as_str(), "git st"),
        _ => panic!("expected the editor contents"),
    }
    assert!(matches!(
        receive_sync_input_event(1, TerminalInputState::InputEditor, event.clone()),
        SyncInputEffect::Nothing
    ));
    match receive_sync_input_event(2, TerminalInputState::NotBootstrapped, event.clone()) {
        SyncInputEffect::SendInputBufferToEditor(c) => assert_eq!(c.as_str(), "git st"),
        _ => panic!("expected the contents to be sent to the editor"),
    }
    assert!(matches!(
        receive_sync_input_event(2, TerminalInputState::AltScreen, event),
        SyncInputEffect::Nothing
    ));
    let event = create_sync_event_based_on_terminal_state(1, TerminalInputState::AltScreen, String::new());
    assert!(matches!(event.data, SyncInputType::StartSyncing));
}

#[test]
fn sync_typed_characters_and_commands() {
    let typed = SyncEvent {
        source_view_id: 4,
        data: SyncInputType::NonEditorTyped { chars: Arc::new(vec![b'q']) },
    };
    match receive_sync_input_event(5, TerminalInputState::LongRunningCommand, typed.clone()) {
        SyncInputEffect::WriteToPty(bytes) => assert_eq!(*bytes, vec![b'q']),
        _ => panic!("expected the bytes to be written"),
    }
    assert!(matches!(
        receive_sync_input_event(5, TerminalInputState::InputEditor, typed),
        SyncInputEffect::Nothing
    ));
    let ran = SyncEvent { source_view_id: 4, data: SyncInputType::RanCommand };
    assert!(matches!(
        receive_sync_input_event(5, TerminalInputState::InputEditor, ran.clone()),
        SyncInputEffect::RunCommandInInput
    ));
    assert!(matches!(
        receive_sync_input_event(5, TerminalInputState::NotBootstrapped, ran),
        SyncInputEffect::Nothing
    ));
}

#[test]
fn input_changes_are_forwarded_while_syncing() {
    let contents = Arc::new("ls".to_string());
    let e = forward_input_sync(7, true, SyncInputType::InputEditorContentsChanged { contents: contents.clone() })
        .expect("forwarded");
    assert_eq!(e.source_view_id, 7);
    match e.data {
        SyncInputType::InputEditorContentsChanged { contents: c } => assert_eq!(c.as_str(), "ls"),
        _ => panic!("expected the contents"),
    }
    assert!(forward_input_sync(7, false, SyncInputType::RanCommand).is_none());
    assert!(forward_input_sync(7, true, SyncInputType::StartSyncing).is_none());
    let e = forward_input_sync(7, true, SyncInputType::RanCommand).expect("forwarded");
    assert!(matches!(e.data, SyncInputType::RanCommand));
}
