use indexmap::IndexSet;
use warp_app::working_directories::{
    update_index_set, LocalPathRoot, RepoRootOf, TerminalRoot, WorkingDirectoriesEvent,
    WorkingDirectoriesModel, WorkingDirectory,
};

fn s(x: &str) -> String {
    x.to_string()
}

#[test]
fn update_index_set_keeps_order_of_survivors() {
    let mut set: IndexSet<String> = ["a", "b", "c"].iter().map(|x| s(x)).collect();
    update_index_set(&mut set, vec![s("d"), s("c"), s("a"), s("d")]);
    let items: Vec<String> = set.into_iter().collect();
    assert_eq!(items, vec![s("a"), s("c"), s("d")]);
}

#[test]
fn update_index_set_twice_changes_nothing() {
    let mut set: IndexSet<String> = IndexSet::new();
    update_index_set(&mut set, vec![s("x"), s("y")]);
    update_index_set(&mut set, vec![s("x"), s("y")]);
    let items: Vec<String> = set.into_iter().collect();
    assert_eq!(items, vec![s("x"), s("y")]);
}

#[test]
fn refresh_collapses_paths_to_repositories() {
    let mut model = WorkingDirectoriesModel::new();
    let terminals = vec![
        TerminalRoot { terminal_id: 1, root: Some(s("/repo")) },
        TerminalRoot { terminal_id: 2, root: Some(s("/tmp")) },
        TerminalRoot { terminal_id: 3, root: None },
    ];
    let table = vec![
        RepoRootOf { path: s("/repo"), repo_root: Some(s("/repo")) },
        RepoRootOf { path: s("/tmp"), repo_root: None },
    ];
    let events =
        model.refresh_working_directories_for_pane_group(10, terminals, Vec::new(), table, Some(1));
    assert_eq!(events.len(), 3);
    match &events[0] {
        WorkingDirectoriesEvent::DirectoriesChanged { pane_group_id, directories } => {
            assert_eq!(*pane_group_id, 10);
            assert_eq!(
                directories,
                &vec![
                    WorkingDirectory { path: s("/tmp"), terminal_id: Some(2) },
                    WorkingDirectory { path: s("/repo"), terminal_id: Some(1) },
                ]
            );
        }
        other => panic!("unexpected event {other:?}"),
    }
    match &events[1] {
        WorkingDirectoriesEvent::RepositoriesChanged { repositories, .. } => {
            assert_eq!(repositories, &vec![s("/repo")]);
        }
        other => panic!("unexpected event {other:?}"),
    }
    match &events[2] {
        WorkingDirectoriesEvent::FocusedRepoChanged { focused_repo, .. } => {
            assert_eq!(focused_repo, &Some(s("/repo")));
        }
        other => panic!("unexpected event {other:?}"),
    }
    assert_eq!(model.get_terminal_id_for_root_path(10, &s("/tmp")), Some(2));
    assert_eq!(model.most_recent_repositories_for_pane_group(10), Some(vec![s("/repo")]));
}

#[test]
fn refresh_with_same_input_emits_nothing() {
    let mut model = WorkingDirectoriesModel::new();
    let terminals = || vec![TerminalRoot { terminal_id: 1, root: Some(s("/a")) }];
    let first = model.refresh_working_directories_for_pane_group(1, terminals(), Vec::new(), Vec::new(), None);
    assert_eq!(first.len(), 1);
    let second = model.refresh_working_directories_for_pane_group(1, terminals(), Vec::new(), Vec::new(), None);
    assert!(second.is_empty());
}

#[test]
fn local_files_add_their_directory_once() {
    let mut model = WorkingDirectoriesModel::new();
    let local = vec![
        LocalPathRoot { view_id: 5, resolved: Some(s("/docs")), root: Some(s("/docs")) },
        LocalPathRoot { view_id: 6, resolved: Some(s("/docs")), root: Some(s("/docs")) },
        LocalPathRoot { view_id: 7, resolved: Some(s("/a")), root: Some(s("/a")) },
    ];
    let terminals = vec![TerminalRoot { terminal_id: 1, root: Some(s("/a")) }];
    model.refresh_working_directories_for_pane_group(2, terminals, local, Vec::new(), None);
    let dirs = model.most_recent_directories_for_pane_group(2).unwrap();
    assert_eq!(
        dirs,
        vec![
            WorkingDirectory { path: s("/docs"), terminal_id: None },
            WorkingDirectory { path: s("/a"), terminal_id: Some(1) },
        ]
    );
}

#[test]
fn empty_refresh_and_removal_clear_the_pane_group() {
    let mut model = WorkingDirectoriesModel::new();
    let terminals = vec![TerminalRoot { terminal_id: 1, root: Some(s("/a")) }];
    model.refresh_working_directories_for_pane_group(3, terminals, Vec::new(), Vec::new(), None);
    let cleared =
        model.refresh_working_directories_for_pane_group(3, Vec::new(), Vec::new(), Vec::new(), None);
    assert_eq!(cleared.len(), 3);
    assert!(model.most_recent_directories_for_pane_group(3).is_none());
    let removed = model.remove_pane_group(3);
    assert!(removed.is_empty());
    assert!(model.remove_pane_group(99).is_empty());
}
