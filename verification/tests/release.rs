use vapor_sdk_core::release::{
    action_walk, root_package_actions, root_publish_actions, root_publish_outcome, RootPublishAction, TreeEntry,
    TreeWalk, TreeWrite,
};
use vapor_sdk_core::root::{
    app_build_script, root_package, root_package_request, root_steam_request, RootCommandError, RootPackageLayout,
    RootPackageRequest, RootPublishRequest,
};
use vapor_sdk_core::steam::{
    steam_run_app_build_invocation, steam_run_app_build_plan, SteamCmdProbes, SteamCommandError,
};
use vapor_sdk_core::ProcessExit;

fn package_request(plan: bool) -> RootPackageRequest {
    RootPackageRequest {
        plan,
        app_id: 2_122_620,
        depot_id: 2_122_621,
        description: "Vapor".to_owned(),
        set_live: Some("beta".to_owned()),
    }
}

fn publish_request(plan: bool, account: &str) -> RootPublishRequest {
    RootPublishRequest {
        plan,
        app_id: 2_122_620,
        depot_id: 2_122_621,
        description: "Vapor".to_owned(),
        account: account.to_owned(),
        steamcmd: "steamcmd".to_owned(),
        set_live: Some("beta".to_owned()),
    }
}

fn layout() -> RootPackageLayout {
    RootPackageLayout::new(
        &package_request(false),
        "/opt/vapor",
        "/opt/vapor/output",
        "x86_64-unknown-linux-gnu",
        &vec![true; 5],
    )
    .unwrap()
}

fn found_steamcmd() -> SteamCmdProbes {
    SteamCmdProbes { path_entries: vec!["/usr/bin".to_owned()], present: vec![true] }
}

fn changes_state(action: &RootPublishAction) -> bool {
    !matches!(action, RootPublishAction::CountTree { .. } | RootPublishAction::Fail(_))
}

#[test]
fn planned_package_only_counts() {
    let layout = layout();
    let actions = root_package_actions(&package_request(true), &layout);
    assert_eq!(actions.len(), 5);
    assert!(actions.iter().all(|action| !changes_state(action)));
    assert_eq!(
        actions[0],
        RootPublishAction::CountTree {
            source: "/opt/vapor/sdk_cli".to_owned(),
            target: "/opt/vapor/output/root/content/sdk_cli".to_owned(),
        }
    );
}

#[test]
fn real_package_resets_copies_and_writes() {
    let layout = layout();
    let request = package_request(false);
    let actions = root_package_actions(&request, &layout);
    assert_eq!(actions.len(), 9);
    assert_eq!(actions[0], RootPublishAction::ResetDir("/opt/vapor/output/root/content".to_owned()));
    assert_eq!(actions[1], RootPublishAction::ResetDir("/opt/vapor/output/root/scripts".to_owned()));
    assert_eq!(actions[2], RootPublishAction::CreateDir("/opt/vapor/output/root/steam-build".to_owned()));
    assert_eq!(
        actions[3],
        RootPublishAction::CopyTree {
            source: "/opt/vapor/sdk_cli".to_owned(),
            target: "/opt/vapor/output/root/content/sdk_cli".to_owned(),
        }
    );
    let script = app_build_script(&request, &layout.content_root, &layout.steam_build_root);
    assert_eq!(
        actions[8],
        RootPublishAction::WriteFile {
            path: "/opt/vapor/output/root/scripts/app_build_2122620.vdf".to_owned(),
            text: script,
        }
    );
    let planned = root_package_actions(&package_request(true), &layout);
    for (count, copy) in planned.iter().zip(&actions[3..8]) {
        match (count, copy) {
            (
                RootPublishAction::CountTree { source: a, target: b },
                RootPublishAction::CopyTree { source: c, target: d },
            ) => assert_eq!((a, b), (c, d)),
            _ => panic!("unexpected steps"),
        }
    }
}

#[test]
fn planned_publish_never_runs_steamcmd() {
    let request = publish_request(true, "builder");
    let layout = layout();
    let steam_request = root_steam_request(&request, &layout);
    let invocation = steam_run_app_build_invocation(&steam_request, "/opt/vapor", &found_steamcmd());
    assert!(invocation.is_ok());
    let actions = root_publish_actions(&request, &layout, invocation);
    assert_eq!(actions.len(), 5);
    assert!(actions.iter().all(|action| !changes_state(action)));
}

#[test]
fn real_publish_uploads_last() {
    let request = publish_request(false, "builder");
    let layout = layout();
    let steam_request = root_steam_request(&request, &layout);
    let invocation = steam_run_app_build_invocation(&steam_request, "/opt/vapor", &found_steamcmd()).unwrap();
    let actions = root_publish_actions(&request, &layout, Ok(invocation.clone()));
    assert_eq!(actions.len(), 10);
    assert_eq!(actions[9], RootPublishAction::RunSteamCmd(invocation));
    assert_eq!(
        actions.iter().filter(|action| matches!(action, RootPublishAction::RunSteamCmd(_))).count(),
        1
    );
}

#[test]
fn real_publish_without_steamcmd_fails_after_packaging() {
    let request = publish_request(false, "builder");
    let layout = layout();
    let steam_request = root_steam_request(&request, &layout);
    let missing = SteamCmdProbes { path_entries: vec!["/usr/bin".to_owned()], present: vec![false] };
    let invocation = steam_run_app_build_invocation(&steam_request, "/opt/vapor", &missing);
    assert_eq!(invocation, Err(SteamCommandError::SteamCmdUnavailable("steamcmd".to_owned())));
    let actions = root_publish_actions(&request, &layout, invocation);
    assert_eq!(actions.len(), 10);
    assert!(matches!(actions[8], RootPublishAction::WriteFile { .. }));
    assert_eq!(
        actions[9],
        RootPublishAction::Fail(RootCommandError::Steam(SteamCommandError::SteamCmdUnavailable(
            "steamcmd".to_owned()
        )))
    );
}

#[test]
fn planned_publish_outcome() {
    let request = publish_request(true, "builder");
    let layout = layout();
    let steam_request = root_steam_request(&request, &layout);
    let planned = steam_run_app_build_plan(&steam_request, "/opt/vapor", &found_steamcmd());
    let package = root_package(&root_package_request(&request), &layout, 3);
    let report = root_publish_outcome(&request, &layout, package.clone(), planned, None).unwrap();
    assert!(report.planned);
    assert_eq!(report.package, package);
    assert_eq!(report.steamcmd, "/usr/bin/steamcmd");
    assert_eq!(report.status, None);
    assert_eq!(
        report.steam_args,
        vec![
            "+login".to_owned(),
            "builder".to_owned(),
            "+run_app_build".to_owned(),
            "/opt/vapor/output/root/scripts/app_build_2122620.vdf".to_owned(),
            "+quit".to_owned(),
        ]
    );

    let blank = publish_request(true, " ");
    let planned = steam_run_app_build_plan(&root_steam_request(&blank, &layout), "/opt/vapor", &found_steamcmd());
    assert_eq!(
        root_publish_outcome(&blank, &layout, package, planned, None),
        Err(RootCommandError::Steam(SteamCommandError::MissingAccount))
    );
}

#[test]
fn real_publish_outcome() {
    let request = publish_request(false, "builder");
    let layout = layout();
    let steam_request = root_steam_request(&request, &layout);
    let invocation = steam_run_app_build_invocation(&steam_request, "/opt/vapor", &found_steamcmd()).unwrap();
    let planned = steam_run_app_build_plan(&steam_request, "/opt/vapor", &found_steamcmd());
    let package = root_package(&root_package_request(&request), &layout, 3);
    let exit = ProcessExit { success: false, code: Some(7), description: "exit status: 7".to_owned() };
    let report =
        root_publish_outcome(&request, &layout, package, planned, Some((invocation.clone(), exit.clone()))).unwrap();
    assert!(!report.planned);
    assert_eq!(report.status, Some(exit));
    assert_eq!(report.steam_args, invocation.steam_args);
    assert_eq!(report.steamcmd, "/usr/bin/steamcmd");
}

/// Feed a walk the answers in turn: every write it asked for, and the walk.
fn feed(mut walk: TreeWalk, answers: &[(TreeEntry, Vec<String>)]) -> (Vec<TreeWrite>, TreeWalk) {
    let mut writes = Vec::new();
    for (entry, names) in answers {
        writes.extend(walk.visit(entry, names).unwrap());
    }
    (writes, walk)
}

fn tree_answers() -> Vec<(TreeEntry, Vec<String>)> {
    vec![
        (TreeEntry::Directory, vec!["a".to_owned(), "link".to_owned(), "fifo".to_owned()]),
        (TreeEntry::File, vec![]),
        (TreeEntry::Symlink("../real".to_owned()), vec![]),
        (TreeEntry::File, vec![]),
        (TreeEntry::Other, vec![]),
    ]
}

#[test]
fn copy_walk_copies_tree() {
    let (writes, walk) = feed(TreeWalk::new("/src", "/dst", true), &tree_answers());
    assert!(walk.pending.is_empty());
    assert_eq!(walk.files, 2);
    assert_eq!(
        writes,
        vec![
            TreeWrite::CreateDir("/dst".to_owned()),
            TreeWrite::CopyFile { source: "/src/a".to_owned(), target: "/dst/a".to_owned() },
            TreeWrite::CopyFile { source: "/src/../real".to_owned(), target: "/dst/link".to_owned() },
        ]
    );
}

#[test]
fn count_walk_counts_what_copy_walk_copies() {
    let (writes, walk) = feed(TreeWalk::new("/src", "/dst", false), &tree_answers());
    assert!(writes.is_empty());
    assert!(walk.pending.is_empty());
    let (_, copied) = feed(TreeWalk::new("/src", "/dst", true), &tree_answers());
    assert_eq!(walk.files, copied.files);
}

#[test]
fn walk_visits_first_entry_next() {
    let mut walk = TreeWalk::new("/src", "/dst", false);
    walk.visit(&TreeEntry::Directory, &vec!["x".to_owned(), "y".to_owned()]).unwrap();
    assert_eq!(walk.pending.last(), Some(&("/src/x".to_owned(), "/dst/x".to_owned())));
    assert_eq!(walk.pending.len(), 2);
}

#[test]
fn walk_symlink_without_parent_fails() {
    let mut walk = TreeWalk::new("/", "/dst", true);
    let result = walk.visit(&TreeEntry::Symlink("rel".to_owned()), &vec![]);
    assert_eq!(result, Err(RootCommandError::SymlinkHasNoParent("/".to_owned())));
    assert_eq!(walk.pending, vec![("/".to_owned(), "/dst".to_owned())]);
    let mut absolute = TreeWalk::new("/", "/dst", true);
    absolute.visit(&TreeEntry::Symlink("/abs".to_owned()), &vec![]).unwrap();
    assert_eq!(absolute.pending, vec![("/abs".to_owned(), "/dst".to_owned())]);
}

#[test]
fn action_walks() {
    let copy = action_walk(&RootPublishAction::CopyTree { source: "/s".to_owned(), target: "/t".to_owned() }).unwrap();
    assert!(copy.copy);
    assert_eq!(copy.files, 0);
    let count = action_walk(&RootPublishAction::CountTree { source: "/s".to_owned(), target: "/t".to_owned() }).unwrap();
    assert!(!count.copy);
    assert_eq!(count.pending, vec![("/s".to_owned(), "/t".to_owned())]);
    assert!(action_walk(&RootPublishAction::CreateDir("/t".to_owned())).is_none());
}
