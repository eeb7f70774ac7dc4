//! The steps of packaging and publishing the app root.
//!
//! The library decides which steps a package or publish run takes, and the
//! caller performs them in order: resetting and creating directories,
//! copying (or, in plan mode, only counting) the package trees, writing the
//! SteamPipe script, and running SteamCMD. In plan mode no step changes
//! anything and SteamCMD never runs.

use vstd::prelude::*;

use crate::path::{join_path, path_join};
use crate::outcome::ProcessExit;
use crate::root::{
    package_depot_paths, is_package_layout, CONTENT_DIR, ROOT_OUTPUT_DIR, vdf_escaped, app_build_script, app_build_script_text, resolve_symlink_target, root_package_request,
    root_publish_plan_report, root_publish_report, root_steam_request, symlink_destination,
    PackageRoot, RootCommandError, RootPackageLayout, RootPackageReport, RootPackageRequest,
    RootPublishReport, RootPublishRequest,
};
use crate::steam::{steam_run_app_build_report, SteamCommandError, SteamInvocation, SteamStatusReport};

verus! {

/// One step of packaging or publishing the app root.
#[derive(Debug, Clone, PartialEq, Eq)]
pub enum RootPublishAction {
    /// Remove the directory if it exists, then create it empty.
    ResetDir(String),
    /// Create the directory and its parents.
    CreateDir(String),
    /// Copy the tree at `source` to `target`, counting its files.
    CopyTree { source: String, target: String },
    /// Count the files of the tree at `source` that a copy to `target`
    /// would write, writing nothing.
    CountTree { source: String, target: String },
    /// Create the file's directory and write `text` to it.
    WriteFile { path: String, text: String },
    /// Run SteamCMD as planned.
    RunSteamCmd(SteamInvocation),
    /// Stop with this error.
    Fail(RootCommandError),
}

/// The model of a step: its paths and texts as character sequences.
pub enum RootActionView {
    ResetDir(Seq<char>),
    CreateDir(Seq<char>),
    CopyTree(Seq<char>, Seq<char>),
    CountTree(Seq<char>, Seq<char>),
    WriteFile(Seq<char>, Seq<char>),
    RunSteamCmd(SteamInvocation),
    Fail(RootCommandError),
}

/// The model of a step.
pub open spec fn root_action_view(action: RootPublishAction) -> RootActionView {
    match action {
        RootPublishAction::ResetDir(path) => RootActionView::ResetDir(path@),
        RootPublishAction::CreateDir(path) => RootActionView::CreateDir(path@),
        RootPublishAction::CopyTree { source, target } => RootActionView::CopyTree(source@, target@),
        RootPublishAction::CountTree { source, target } => RootActionView::CountTree(source@, target@),
        RootPublishAction::WriteFile { path, text } => RootActionView::WriteFile(path@, text@),
        RootPublishAction::RunSteamCmd(invocation) => RootActionView::RunSteamCmd(invocation),
        RootPublishAction::Fail(error) => RootActionView::Fail(error),
    }
}

/// The models of a list of steps.
pub open spec fn root_actions_view(actions: Seq<RootPublishAction>) -> Seq<RootActionView> {
    actions.map_values(|action: RootPublishAction| root_action_view(action))
}

/// `true` for a step that changes the filesystem or runs SteamCMD.
pub open spec fn changes_state(action: RootActionView) -> bool {
    match action {
        RootActionView::CountTree(..) | RootActionView::Fail(..) => false,
        _ => true,
    }
}

/// The tree a copy or count step visits: its source and target.
pub open spec fn visited_tree(action: RootActionView) -> Option<(Seq<char>, Seq<char>)> {
    match action {
        RootActionView::CopyTree(source, target) => Some((source, target)),
        RootActionView::CountTree(source, target) => Some((source, target)),
        _ => None,
    }
}

/// The content directory a package root is copied to.
pub open spec fn root_target(layout: RootPackageLayout, root: PackageRoot) -> Seq<char> {
    path_join(layout.content_root@, root.depot_path@)
}

/// The tree steps of a package: each package root, copied into the content
/// directory at its depot path, or only counted in plan mode.
pub open spec fn tree_actions(layout: RootPackageLayout, plan: bool) -> Seq<RootActionView> {
    layout.included_roots@.map_values(
        |root: PackageRoot|
            if plan {
                RootActionView::CountTree(root.source@, root_target(layout, root))
            } else {
                RootActionView::CopyTree(root.source@, root_target(layout, root))
            },
    )
}

/// The steps of packaging into `layout` with the app build script `script`:
/// in plan mode only the counts; otherwise reset the content and script
/// directories, create the SteamPipe build directory, copy the package
/// roots, and write the app build script.
pub open spec fn package_actions(plan: bool, layout: RootPackageLayout, script: Seq<char>) -> Seq<
    RootActionView,
> {
    if plan {
        tree_actions(layout, true)
    } else {
        seq![
            RootActionView::ResetDir(layout.content_root@),
            RootActionView::ResetDir(layout.scripts_root@),
            RootActionView::CreateDir(layout.steam_build_root@),
        ] + tree_actions(layout, false) + seq![
            RootActionView::WriteFile(layout.app_build_script@, script),
        ]
    }
}

/// The app build script a package request writes into `layout`.
pub open spec fn package_script(request: RootPackageRequest, layout: RootPackageLayout) -> Seq<char> {
    app_build_script_text(
        request.app_id,
        request.depot_id,
        request.description@,
        request.set_live.deep_view(),
        layout.content_root@,
        layout.steam_build_root@,
    )
}

/// The app build script a publish request writes into `layout`.
pub open spec fn publish_script(request: RootPublishRequest, layout: RootPackageLayout) -> Seq<char> {
    app_build_script_text(
        request.app_id,
        request.depot_id,
        request.description@,
        request.set_live.deep_view(),
        layout.content_root@,
        layout.steam_build_root@,
    )
}

/// The upload step of a real publish: run SteamCMD, or stop with the error
/// that kept it from being planned.
pub open spec fn upload_action(steam: Result<SteamInvocation, SteamCommandError>) -> RootActionView {
    match steam {
        Ok(invocation) => RootActionView::RunSteamCmd(invocation),
        Err(error) => RootActionView::Fail(RootCommandError::Steam(error)),
    }
}

/// The steps of a publish: those of its package, then, unless planning,
/// the upload.
pub open spec fn publish_actions(
    request: RootPublishRequest,
    layout: RootPackageLayout,
    steam: Result<SteamInvocation, SteamCommandError>,
) -> Seq<RootActionView> {
    let package = package_actions(request.plan, layout, publish_script(request, layout));
    if request.plan {
        package
    } else {
        package.push(upload_action(steam))
    }
}

fn push_tree_actions(actions: &mut Vec<RootPublishAction>, layout: &RootPackageLayout, plan: bool)
    ensures
        root_actions_view(final(actions)@) == root_actions_view(old(actions)@) + tree_actions(
            *layout,
            plan,
        ),
{
    let ghost start = root_actions_view(actions@);
    let mut i: usize = 0;
    while i < layout.included_roots.len()
        invariant
            i <= layout.included_roots.len(),
            root_actions_view(actions@) == start + tree_actions(*layout, plan).subrange(0, i as int),
        decreases layout.included_roots.len() - i,
    {
        let ghost before = actions@;
        let root = &layout.included_roots[i];
        let target = join_path(layout.content_root.as_str(), root.depot_path.as_str());
        let source = root.source.clone();
        if plan {
            actions.push(RootPublishAction::CountTree { source, target });
        } else {
            actions.push(RootPublishAction::CopyTree { source, target });
        }
        proof {
            assert(root_actions_view(actions@) =~= root_actions_view(before).push(
                tree_actions(*layout, plan)[i as int],
            ));
            assert(tree_actions(*layout, plan).subrange(0, i + 1) =~= tree_actions(
                *layout,
                plan,
            ).subrange(0, i as int).push(tree_actions(*layout, plan)[i as int]));
        }
        i = i + 1;
    }
    assert(tree_actions(*layout, plan).subrange(0, i as int) =~= tree_actions(*layout, plan));
}

fn package_steps(plan: bool, layout: &RootPackageLayout, script: String) -> (actions: Vec<RootPublishAction>)
    ensures
        root_actions_view(actions@) == package_actions(plan, *layout, script@),
{
    let mut actions: Vec<RootPublishAction> = Vec::new();
    if plan {
        push_tree_actions(&mut actions, layout, true);
        assert(root_actions_view(actions@) =~= package_actions(plan, *layout, script@));
    } else {
        actions.push(RootPublishAction::ResetDir(layout.content_root.clone()));
        actions.push(RootPublishAction::ResetDir(layout.scripts_root.clone()));
        actions.push(RootPublishAction::CreateDir(layout.steam_build_root.clone()));
        let ghost head = root_actions_view(actions@);
        push_tree_actions(&mut actions, layout, false);
        let ghost copied = root_actions_view(actions@);
        actions.push(
            RootPublishAction::WriteFile { path: layout.app_build_script.clone(), text: script },
        );
        proof {
            assert(head =~= seq![
                RootActionView::ResetDir(layout.content_root@),
                RootActionView::ResetDir(layout.scripts_root@),
                RootActionView::CreateDir(layout.steam_build_root@),
            ]);
            assert(root_actions_view(actions@) =~= copied.push(
                RootActionView::WriteFile(layout.app_build_script@, script@),
            ));
            assert(root_actions_view(actions@) =~= package_actions(plan, *layout, script@));
        }
    }
    actions
}

/// The steps of a root package run in `layout`. In plan mode no step changes
/// anything: the package trees are only counted.
pub fn root_package_actions(request: &RootPackageRequest, layout: &RootPackageLayout) -> (actions: Vec<
    RootPublishAction,
>)
    ensures
        root_actions_view(actions@) == package_actions(
            request.plan,
            *layout,
            package_script(*request, *layout),
        ),
        request.plan ==> forall|i: int|
            0 <= i < actions.len() ==> !changes_state(#[trigger] root_action_view(actions@[i])),
{
    let script = app_build_script(request, layout.content_root.as_str(), layout.steam_build_root.as_str());
    let actions = package_steps(request.plan, layout, script);
    proof {
        lemma_plan_changes_nothing(*layout, package_script(*request, *layout));
        if request.plan {
            assert forall|i: int| 0 <= i < actions.len() implies !changes_state(
                #[trigger] root_action_view(actions@[i]),
            ) by {
                assert(root_action_view(actions@[i]) == root_actions_view(actions@)[i]);
            }
        }
    }
    actions
}

/// The steps of a root publish in `layout`, with the SteamCMD invocation
/// planned for the upload (or why none could be). In plan mode no step
/// changes anything and SteamCMD never runs; otherwise the package steps
/// come first and the upload last, exactly once.
pub fn root_publish_actions(
    request: &RootPublishRequest,
    layout: &RootPackageLayout,
    steam: Result<SteamInvocation, SteamCommandError>,
) -> (actions: Vec<RootPublishAction>)
    ensures
        root_actions_view(actions@) == publish_actions(*request, *layout, steam),
        request.plan ==> forall|i: int|
            0 <= i < actions.len() ==> !changes_state(#[trigger] root_action_view(actions@[i])),
        !request.plan ==> actions.len() > 0 && root_action_view(actions@.last()) == upload_action(steam)
            && forall|i: int|
            0 <= i < actions.len() - 1 ==> !(#[trigger] root_action_view(actions@[i]) is RunSteamCmd),
{
    let package = root_package_request(request);
    let script = app_build_script(&package, layout.content_root.as_str(), layout.steam_build_root.as_str());
    let mut actions = package_steps(request.plan, layout, script);
    proof {
        lemma_plan_changes_nothing(*layout, publish_script(*request, *layout));
        lemma_package_never_uploads(request.plan, *layout, publish_script(*request, *layout));
    }
    if request.plan {
        proof {
            assert forall|i: int| 0 <= i < actions.len() implies !changes_state(
                #[trigger] root_action_view(actions@[i]),
            ) by {
                assert(root_action_view(actions@[i]) == root_actions_view(actions@)[i]);
            }
        }
        return actions;
    }
    let ghost before = actions@;
    let upload = match steam {
        Ok(invocation) => RootPublishAction::RunSteamCmd(invocation),
        Err(error) => RootPublishAction::Fail(RootCommandError::Steam(error)),
    };
    actions.push(upload);
    proof {
        assert(root_actions_view(actions@) =~= root_actions_view(before).push(upload_action(steam)));
        assert forall|i: int| 0 <= i < actions.len() - 1 implies !(#[trigger] root_action_view(
            actions@[i],
        ) is RunSteamCmd) by {
            assert(actions@[i] == before[i]);
            assert(root_action_view(before[i]) == root_actions_view(before)[i]);
        }
    }
    actions
}

/// Law: plan mode changes nothing. Every step of a planned package only
/// counts a package tree.
pub proof fn lemma_plan_changes_nothing(layout: RootPackageLayout, script: Seq<char>)
    ensures
        forall|i: int|
            0 <= i < package_actions(true, layout, script).len() ==> !changes_state(
                #[trigger] package_actions(true, layout, script)[i],
            ),
{
}

/// Package steps never run SteamCMD.
proof fn lemma_package_never_uploads(plan: bool, layout: RootPackageLayout, script: Seq<char>)
    ensures
        forall|i: int|
            0 <= i < package_actions(plan, layout, script).len() ==> !(
            #[trigger] package_actions(plan, layout, script)[i] is RunSteamCmd),
{
    if !plan {
        let actions = package_actions(plan, layout, script);
        assert forall|i: int| 0 <= i < actions.len() implies !(#[trigger] actions[i] is RunSteamCmd) by {
            if 3 <= i < 3 + tree_actions(layout, false).len() {
                assert(actions[i] == tree_actions(layout, false)[i - 3]);
            }
        }
    }
}

/// Law: a planned package counts exactly what the real one copies. Step for
/// step, the planned run counts the same trees, from the same sources to the
/// same targets, that the real run copies.
pub proof fn lemma_plan_counts_what_real_copies(layout: RootPackageLayout)
    ensures
        tree_actions(layout, true).len() == tree_actions(layout, false).len(),
        forall|i: int|
            0 <= i < tree_actions(layout, true).len() ==> {
                &&& visited_tree(#[trigger] tree_actions(layout, true)[i]) == visited_tree(
                    tree_actions(layout, false)[i],
                )
                &&& tree_actions(layout, true)[i] is CountTree
                &&& tree_actions(layout, false)[i] is CopyTree
            },
{
}

/// What the caller found at a path of a package tree.
#[derive(Debug, Clone, PartialEq, Eq)]
pub enum TreeEntry {
    Directory,
    /// A symlink, with the path it points at.
    Symlink(String),
    File,
    /// Anything else, such as a socket or device.
    Other,
}

/// A change that a copying walk asks of the filesystem.
#[derive(Debug, Clone, PartialEq, Eq)]
pub enum TreeWrite {
    /// Create the directory and its parents.
    CreateDir(String),
    /// Create the target's parent directory and copy the file there.
    CopyFile { source: String, target: String },
}

/// The model of a tree write.
pub enum TreeWriteView {
    CreateDir(Seq<char>),
    CopyFile(Seq<char>, Seq<char>),
}

/// The model of a tree write.
pub open spec fn tree_write_view(write: TreeWrite) -> TreeWriteView {
    match write {
        TreeWrite::CreateDir(path) => TreeWriteView::CreateDir(path@),
        TreeWrite::CopyFile { source, target } => TreeWriteView::CopyFile(source@, target@),
    }
}

/// The models of a list of tree writes.
pub open spec fn tree_writes_view(writes: Seq<TreeWrite>) -> Seq<TreeWriteView> {
    writes.map_values(|write: TreeWrite| tree_write_view(write))
}

/// A walk over a package tree that copies it (`copy`) or only counts its
/// files. `pending` holds the paths still to visit, each with the target it
/// is copied to; the last one is visited next. `files` counts the files met
/// so far.
pub struct TreeWalk {
    pub copy: bool,
    pub pending: Vec<(String, String)>,
    pub files: usize,
}

/// The model of a tree walk.
pub struct WalkView {
    pub copy: bool,
    pub pending: Seq<(Seq<char>, Seq<char>)>,
    pub files: nat,
}

impl View for TreeWalk {
    type V = WalkView;

    open spec fn view(&self) -> WalkView {
        WalkView {
            copy: self.copy,
            pending: self.pending@.map_values(|pair: (String, String)| (pair.0@, pair.1@)),
            files: self.files as nat,
        }
    }
}

/// The paths of a directory's entries, named `names`, each with its target
/// under the directory's target, the first entry last so that it is
/// visited next.
pub open spec fn entry_pairs(source: Seq<char>, target: Seq<char>, names: Seq<Seq<char>>) -> Seq<
    (Seq<char>, Seq<char>),
>
    decreases names.len(),
{
    if names.len() == 0 {
        seq![]
    } else {
        entry_pairs(source, target, names.drop_first()).push(
            (path_join(source, names[0]), path_join(target, names[0])),
        )
    }
}

/// One step of a walk: the next pending path was found to be `entry` (with
/// the entries `names` when it is a directory). The walk that follows and
/// the writes that the step asks for; `None` when the path is a symlink
/// whose relative target cannot be resolved.
pub open spec fn walk_visit(walk: WalkView, entry: TreeEntry, names: Seq<Seq<char>>) -> Option<
    (WalkView, Seq<TreeWriteView>),
> {
    if walk.pending.len() == 0 {
        Some((walk, seq![]))
    } else {
        let (source, target) = walk.pending.last();
        let rest = walk.pending.drop_last();
        match entry {
            TreeEntry::Directory => Some(
                (
                    WalkView { pending: rest + entry_pairs(source, target, names), ..walk },
                    if walk.copy {
                        seq![TreeWriteView::CreateDir(target)]
                    } else {
                        seq![]
                    },
                ),
            ),
            TreeEntry::Symlink(link_target) => match symlink_destination(source, link_target@) {
                Some(destination) => Some(
                    (WalkView { pending: rest.push((destination, target)), ..walk }, seq![]),
                ),
                None => None,
            },
            TreeEntry::File => Some(
                (
                    WalkView { pending: rest, files: walk.files + 1, ..walk },
                    if walk.copy {
                        seq![TreeWriteView::CopyFile(source, target)]
                    } else {
                        seq![]
                    },
                ),
            ),
            TreeEntry::Other => Some((WalkView { pending: rest, ..walk }, seq![])),
        }
    }
}

/// A walk fed the answers `answers` in turn, one per step: the walk it ends
/// as and every write it asked for, or `None` when a step fails.
pub open spec fn walk_run(walk: WalkView, answers: Seq<(TreeEntry, Seq<Seq<char>>)>) -> Option<
    (WalkView, Seq<TreeWriteView>),
>
    decreases answers.len(),
{
    if answers.len() == 0 {
        Some((walk, seq![]))
    } else {
        match walk_visit(walk, answers[0].0, answers[0].1) {
            Some((next, writes)) => match walk_run(next, answers.drop_first()) {
                Some((last, more)) => Some((last, writes + more)),
                None => None,
            },
            None => None,
        }
    }
}

impl TreeWalk {
    /// A walk of the tree at `source` into `target`, copying when `copy`.
    pub fn new(source: &str, target: &str, copy: bool) -> (walk: TreeWalk)
        ensures
            walk@ == (WalkView { copy, pending: seq![(source@, target@)], files: 0 }),
    {
        let mut pending: Vec<(String, String)> = Vec::new();
        pending.push((String::from_str(source), String::from_str(target)));
        let walk = TreeWalk { copy, pending, files: 0 };
        assert(walk@.pending =~= seq![(source@, target@)]);
        walk
    }

    /// Take the answer for the next pending path: it is `entry`, and, when a
    /// directory, holds the entries `names` in the order they are listed.
    /// Directories are visited entry by entry, symlinks followed into the
    /// same target, files counted, and anything else skipped; only a
    /// copying walk asks for writes.
    pub fn visit(&mut self, entry: &TreeEntry, names: &Vec<String>) -> (writes: Result<
        Vec<TreeWrite>,
        RootCommandError,
    >)
        requires
            old(self).pending.len() > 0,
            old(self).files < usize::MAX,
        ensures
            match walk_visit(old(self)@, *entry, names.deep_view()) {
                Some((next, expected)) => final(self)@ == next && (writes matches Ok(done)
                    && tree_writes_view(done@) == expected),
                None => final(self)@ == old(self)@ && (writes matches Err(
                    RootCommandError::SymlinkHasNoParent(path),
                ) && path@ == old(self)@.pending.last().0),
            },
    {
        let ghost start = self@;
        let last = self.pending.len() - 1;
        assert(start.pending.last() == (self.pending[last as int].0@, self.pending[last as int].1@));
        let mut writes: Vec<TreeWrite> = Vec::new();
        match entry {
            TreeEntry::Symlink(link_target) => {
                let resolved = resolve_symlink_target(self.pending[last].0.as_str(), link_target.as_str())?;
                let (_, target) = self.pending.pop().unwrap();
                self.pending.push((resolved, target));
                assert(self@.pending =~= start.pending.drop_last().push(
                    (symlink_destination(start.pending.last().0, link_target@)->Some_0, start.pending.last().1),
                ));
            },
            TreeEntry::Directory => {
                let (source, target) = self.pending.pop().unwrap();
                assert(self@.pending =~= start.pending.drop_last());
                if self.copy {
                    writes.push(TreeWrite::CreateDir(target.clone()));
                }
                self.push_entries(source.as_str(), target.as_str(), names);
            },
            TreeEntry::File => {
                let (source, target) = self.pending.pop().unwrap();
                assert(self@.pending =~= start.pending.drop_last());
                self.files = self.files + 1;
                if self.copy {
                    writes.push(TreeWrite::CopyFile { source, target });
                }
            },
            TreeEntry::Other => {
                self.pending.pop();
                assert(self@.pending =~= start.pending.drop_last());
            },
        }
        assert(tree_writes_view(writes@) =~= walk_visit(start, *entry, names.deep_view())->Some_0.1);
        Ok(writes)
    }

    /// Push the entries `names` of the directory `source`, each with its
    /// target under `target`, the first entry last.
    fn push_entries(&mut self, source: &str, target: &str, names: &Vec<String>)
        ensures
            final(self)@ == (WalkView {
                pending: old(self)@.pending + entry_pairs(source@, target@, names.deep_view()),
                ..old(self)@
            }),
    {
        let ghost start = self@;
        let mut i: usize = names.len();
        while i > 0
            invariant
                i <= names.len(),
                self.copy == start.copy,
                self.files == start.files,
                self@.pending == start.pending + entry_pairs(
                    source@,
                    target@,
                    names.deep_view().subrange(i as int, names.len() as int),
                ),
            decreases i,
        {
            i = i - 1;
            let ghost before = self@.pending;
            let child = join_path(source, names[i].as_str());
            let child_target = join_path(target, names[i].as_str());
            self.pending.push((child, child_target));
            proof {
                let rest = names.deep_view().subrange(i as int, names.len() as int);
                assert(rest.drop_first() =~= names.deep_view().subrange(i + 1, names.len() as int));
                assert(rest[0] == names[i as int]@);
                assert(self@.pending =~= before.push(
                    (path_join(source@, names[i as int]@), path_join(target@, names[i as int]@)),
                ));
            }
        }
        assert(names.deep_view().subrange(0, names.len() as int) =~= names.deep_view());
    }
}

/// The walk that performs a copy or count step: a copying walk for a copy,
/// a counting one for a count; `None` for any other step.
pub open spec fn step_walk(action: RootActionView) -> Option<WalkView> {
    match visited_tree(action) {
        Some((source, target)) => Some(
            WalkView { copy: changes_state(action), pending: seq![(source, target)], files: 0 },
        ),
        None => None,
    }
}

/// The walk that performs a copy or count step: a copying walk for a copy,
/// a counting one for a count; `None` for any other step.
pub fn action_walk(action: &RootPublishAction) -> (walk: Option<TreeWalk>)
    ensures
        match step_walk(root_action_view(*action)) {
            Some(expected) => walk matches Some(w) && w@ == expected,
            None => walk is None,
        },
{
    match action {
        RootPublishAction::CopyTree { source, target } => Some(
            TreeWalk::new(source.as_str(), target.as_str(), true),
        ),
        RootPublishAction::CountTree { source, target } => Some(
            TreeWalk::new(source.as_str(), target.as_str(), false),
        ),
        _ => None,
    }
}

/// Law: a counting walk changes nothing. Whatever it is told, every step
/// of a walk that does not copy asks for no write.
pub proof fn lemma_count_walk_writes_nothing(walk: WalkView, answers: Seq<(TreeEntry, Seq<Seq<char>>)>)
    requires
        !walk.copy,
    ensures
        walk_run(walk, answers) matches Some((last, writes)) ==> !last.copy && writes.len() == 0,
    decreases answers.len(),
{
    if answers.len() > 0 {
        if let Some((next, _)) = walk_visit(walk, answers[0].0, answers[0].1) {
            lemma_count_walk_writes_nothing(next, answers.drop_first());
        }
    }
}

/// Law: a planned package counts exactly the files that the real one
/// copies. A counting walk and a copying walk of the same tree, told the
/// same things about it, fail alike or end alike: the same paths left to
/// visit and the same number of files.
pub proof fn lemma_count_walk_matches_copy_walk(
    counting: WalkView,
    copying: WalkView,
    answers: Seq<(TreeEntry, Seq<Seq<char>>)>,
)
    requires
        !counting.copy,
        copying.copy,
        counting.pending == copying.pending,
        counting.files == copying.files,
    ensures
        walk_run(counting, answers) is Some <==> walk_run(copying, answers) is Some,
        walk_run(counting, answers) matches Some((a, _)) ==> walk_run(copying, answers) matches Some((b, _))
            && a.pending == b.pending && a.files == b.files,
    decreases answers.len(),
{
    if answers.len() > 0 {
        let c = walk_visit(counting, answers[0].0, answers[0].1);
        let d = walk_visit(copying, answers[0].0, answers[0].1);
        assert(c is Some <==> d is Some);
        if let Some((next_c, _)) = c {
            let (next_d, _) = d->Some_0;
            assert(!next_c.copy && next_d.copy);
            lemma_count_walk_matches_copy_walk(next_c, next_d, answers.drop_first());
        }
    }
}

/// Law: a planned package counts the files that the real package copies.
/// The planned run's tree steps stand one for one beside the real run's
/// copies; each is performed by a counting walk, which writes nothing, over
/// the tree that the matching copy walks, and told the same things about
/// that tree the two walks fail alike or meet the same number of files.
pub proof fn lemma_planned_package_counts_as_real(
    layout: RootPackageLayout,
    planned_script: Seq<char>,
    real_script: Seq<char>,
    i: int,
    answers: Seq<(TreeEntry, Seq<Seq<char>>)>,
)
    requires
        0 <= i < layout.included_roots.len(),
    ensures
        ({
            let planned = package_actions(true, layout, planned_script);
            let copied = package_actions(false, layout, real_script);
            &&& planned.len() == layout.included_roots.len()
            &&& copied.len() == layout.included_roots.len() + 4
            &&& step_walk(planned[i]) matches Some(counting) && step_walk(copied[i + 3]) matches Some(
                copying,
            ) && !counting.copy && copying.copy && counting.pending == copying.pending
            &&& (walk_run(step_walk(planned[i])->Some_0, answers) is Some <==> walk_run(
                step_walk(copied[i + 3])->Some_0,
                answers,
            ) is Some)
            &&& walk_run(step_walk(planned[i])->Some_0, answers) matches Some((a, writes))
                ==> writes.len() == 0 && (walk_run(step_walk(copied[i + 3])->Some_0, answers) matches Some(
                (b, _),
            ) && a.files == b.files)
        }),
{
    let planned = package_actions(true, layout, planned_script);
    let copied = package_actions(false, layout, real_script);
    assert(copied[i + 3] == tree_actions(layout, false)[i]);
    let counting = step_walk(planned[i])->Some_0;
    let copying = step_walk(copied[i + 3])->Some_0;
    lemma_count_walk_writes_nothing(counting, answers);
    lemma_count_walk_matches_copy_walk(counting, copying, answers);
}

/// `report` tells of a publish of `request` that packaged `package` and,
/// planned or run, would run SteamCMD as `steam_status` resolved it, with
/// `steam_args`, ending as `status` (none when planned).
pub open spec fn is_publish_report(
    report: RootPublishReport,
    request: RootPublishRequest,
    package: RootPackageReport,
    steam_status: SteamStatusReport,
    steam_args: Vec<String>,
    status: Option<ProcessExit>,
) -> bool {
    &&& report.planned == request.plan
    &&& report.package == package
    &&& report.steamcmd == match steam_status.resolved_steamcmd {
        Some(path) => path,
        None => request.steamcmd,
    }
    &&& report.account == request.account
    &&& report.steam_args == steam_args
    &&& report.status == status
    &&& report.set_live.deep_view() == request.set_live.deep_view()
}

/// Finish a publish in `layout` once its steps were performed and packaged
/// `package`: in plan mode, report the SteamCMD run that was `planned` (or
/// fail with why it could not be); otherwise report how the `upload` that
/// ran ended.
pub fn root_publish_outcome(
    request: &RootPublishRequest,
    layout: &RootPackageLayout,
    package: RootPackageReport,
    planned: Result<(SteamStatusReport, Vec<String>), SteamCommandError>,
    upload: Option<(SteamInvocation, ProcessExit)>,
) -> (report: Result<RootPublishReport, RootCommandError>)
    requires
        !request.plan ==> upload is Some,
    ensures
        request.plan ==> match planned {
            Ok((steam_status, steam_args)) => report matches Ok(r) && is_publish_report(
                r,
                *request,
                package,
                steam_status,
                steam_args,
                None,
            ),
            Err(error) => report == Err::<RootPublishReport, RootCommandError>(
                RootCommandError::Steam(error),
            ),
        },
        !request.plan ==> match upload {
            Some((invocation, exit)) => report matches Ok(r) && is_publish_report(
                r,
                *request,
                package,
                invocation.status,
                invocation.steam_args,
                Some(exit),
            ),
            None => false,
        },
{
    if request.plan {
        match planned {
            Ok((steam_status, steam_args)) => Ok(
                root_publish_plan_report(request, package, &steam_status, steam_args),
            ),
            Err(error) => Err(RootCommandError::Steam(error)),
        }
    } else {
        let (invocation, exit) = upload.unwrap();
        let steam_request = root_steam_request(request, layout);
        let steam = steam_run_app_build_report(&steam_request, invocation, exit);
        Ok(root_publish_report(request, package, steam))
    }
}

/// Law: each package root lands in the content directory at its full depot
/// path. Step for step, a real package copies the tree shipped at each depot
/// path from that path under the Vapor home to that path under
/// `<output root>/root/content`; a planned one counts the same tree into the
/// same place.
pub proof fn lemma_package_roots_land_at_depot_paths(
    layout: RootPackageLayout,
    app_id: u32,
    vapor_home: Seq<char>,
    output_root: Seq<char>,
    host_triple: Seq<char>,
    plan: bool,
    script: Seq<char>,
)
    requires
        is_package_layout(layout, app_id, vapor_home, output_root, host_triple),
    ensures
        forall|i: int|
            0 <= i < package_depot_paths().len() ==> {
                let source = path_join(vapor_home, #[trigger] package_depot_paths()[i]);
                let target = path_join(
                    path_join(path_join(output_root, ROOT_OUTPUT_DIR@), CONTENT_DIR@),
                    package_depot_paths()[i],
                );
                if plan {
                    package_actions(plan, layout, script)[i] == RootActionView::CountTree(source, target)
                } else {
                    package_actions(plan, layout, script)[i + 3] == RootActionView::CopyTree(source, target)
                }
            },
{
    assert forall|i: int| 0 <= i < package_depot_paths().len() implies {
        let source = path_join(vapor_home, #[trigger] package_depot_paths()[i]);
        let target = path_join(
            path_join(path_join(output_root, ROOT_OUTPUT_DIR@), CONTENT_DIR@),
            package_depot_paths()[i],
        );
        if plan {
            package_actions(plan, layout, script)[i] == RootActionView::CountTree(source, target)
        } else {
            package_actions(plan, layout, script)[i + 3] == RootActionView::CopyTree(source, target)
        }
    } by {
        let root = layout.included_roots@[i];
        assert(root.depot_path@ == package_depot_paths()[i]);
        if !plan {
            assert(package_actions(plan, layout, script)[i + 3] == tree_actions(layout, false)[i]);
        }
    }
}

/// Law: an app build script with a `SetLive` branch sets that branch live.
/// The script holds the line `    "SetLive" "<branch>"`, the branch written
/// with VDF escapes.
pub proof fn lemma_script_sets_live(
    app_id: u32,
    depot_id: u32,
    description: Seq<char>,
    branch: Seq<char>,
    content_root: Seq<char>,
    steam_build_root: Seq<char>,
)
    ensures
        ({
            let text = app_build_script_text(
                app_id,
                depot_id,
                description,
                Some(branch),
                content_root,
                steam_build_root,
            );
            let line = "    \"SetLive\" \""@ + vdf_escaped(branch) + "\"\n"@;
            exists|k: int|
                0 <= k && k + line.len() <= text.len() && #[trigger] text.subrange(k, k + line.len())
                    == line
        }),
{
    let line = "    \"SetLive\" \""@ + vdf_escaped(branch) + "\"\n"@;
    let head = "\"AppBuild\"\n{\n    \"AppID\" \""@ + crate::root::decimal(app_id as nat)
        + "\"\n    \"Desc\" \""@ + vdf_escaped(description) + "\"\n"@;
    let tail = "    \"ContentRoot\" \""@ + vdf_escaped(content_root) + "\"\n    \"BuildOutput\" \""@
        + vdf_escaped(steam_build_root) + "\"\n    \"Depots\"\n    {\n        \""@ + crate::root::decimal(
        depot_id as nat,
    )
        + "\"\n        {\n            \"FileMapping\"\n            {\n                \"LocalPath\" \"*\"\n                \"DepotPath\" \".\"\n                \"recursive\" \"1\"\n            }\n        }\n    }\n}\n"@;
    let text = app_build_script_text(
        app_id,
        depot_id,
        description,
        Some(branch),
        content_root,
        steam_build_root,
    );
    assert(text =~= head + line + tail);
    assert((head + line + tail).subrange(head.len() as int, (head.len() + line.len()) as int) =~= line);
}

/// Law: a real publish writes exactly the package that packaging its
/// implied request writes, then uploads. For any package request with the
/// publish request's app, depot, description and live branch, the publish
/// steps are that package's steps followed by the upload.
pub proof fn lemma_publish_packages_as_package_command(
    request: RootPublishRequest,
    package: RootPackageRequest,
    layout: RootPackageLayout,
    steam: Result<SteamInvocation, SteamCommandError>,
)
    requires
        !request.plan,
        package.app_id == request.app_id,
        package.depot_id == request.depot_id,
        package.description@ == request.description@,
        package.set_live.deep_view() == request.set_live.deep_view(),
    ensures
        publish_actions(request, layout, steam) == package_actions(
            false,
            layout,
            package_script(package, layout),
        ).push(upload_action(steam)),
{
}

/// Law: a real publish with a live branch sets that branch live. Its last
/// step but one writes the app build script, and the script holds the line
/// `    "SetLive" "<branch>"`.
pub proof fn lemma_publish_sets_live(
    request: RootPublishRequest,
    layout: RootPackageLayout,
    steam: Result<SteamInvocation, SteamCommandError>,
)
    requires
        !request.plan,
        request.set_live is Some,
    ensures
        ({
            let actions = publish_actions(request, layout, steam);
            let line = "    \"SetLive\" \""@ + vdf_escaped(request.set_live->Some_0@) + "\"\n"@;
            let text = actions[actions.len() - 2]->WriteFile_1;
            &&& actions.len() >= 2
            &&& actions[actions.len() - 2] is WriteFile
            &&& actions[actions.len() - 2]->WriteFile_0 == layout.app_build_script@
            &&& exists|k: int|
                0 <= k && k + line.len() <= text.len() && #[trigger] text.subrange(k, k + line.len())
                    == line
        }),
{
    let actions = publish_actions(request, layout, steam);
    let package = package_actions(false, layout, publish_script(request, layout));
    assert(request.set_live.deep_view() == Some(request.set_live->Some_0@));
    assert(package[package.len() - 1] == RootActionView::WriteFile(
        layout.app_build_script@,
        publish_script(request, layout),
    ));
    assert(actions[actions.len() - 2] == package[package.len() - 1]);
    lemma_script_sets_live(
        request.app_id,
        request.depot_id,
        request.description@,
        request.set_live->Some_0@,
        layout.content_root@,
        layout.steam_build_root@,
    );
    let text = publish_script(request, layout);
    let line = "    \"SetLive\" \""@ + vdf_escaped(request.set_live->Some_0@) + "\"\n"@;
    let w = choose|w: int|
        0 <= w && w + line.len() <= text.len() && #[trigger] text.subrange(w, w + line.len()) == line;
    assert(0 <= w && w + line.len() <= text.len() && text.subrange(w, w + line.len()) == line);
    assert(actions.len() >= 2);
    assert(actions[actions.len() - 2] == RootActionView::WriteFile(layout.app_build_script@, text));
    assert(actions[actions.len() - 2]->WriteFile_1.subrange(w, w + line.len()) == line);
}

/// Law: a real package with a live branch sets that branch live. Its last
/// step writes the app build script, and the script holds the line
/// `    "SetLive" "<branch>"`.
pub proof fn lemma_package_sets_live(request: RootPackageRequest, layout: RootPackageLayout)
    requires
        !request.plan,
        request.set_live is Some,
    ensures
        ({
            let actions = package_actions(request.plan, layout, package_script(request, layout));
            let line = "    \"SetLive\" \""@ + vdf_escaped(request.set_live->Some_0@) + "\"\n"@;
            let text = actions.last()->WriteFile_1;
            &&& actions.len() >= 1
            &&& actions.last() is WriteFile
            &&& actions.last()->WriteFile_0 == layout.app_build_script@
            &&& exists|k: int|
                0 <= k && k + line.len() <= text.len() && #[trigger] text.subrange(k, k + line.len())
                    == line
        }),
{
    let actions = package_actions(request.plan, layout, package_script(request, layout));
    assert(request.set_live.deep_view() == Some(request.set_live->Some_0@));
    lemma_script_sets_live(
        request.app_id,
        request.depot_id,
        request.description@,
        request.set_live->Some_0@,
        layout.content_root@,
        layout.steam_build_root@,
    );
    let text = package_script(request, layout);
    let line = "    \"SetLive\" \""@ + vdf_escaped(request.set_live->Some_0@) + "\"\n"@;
    let w = choose|w: int|
        0 <= w && w + line.len() <= text.len() && #[trigger] text.subrange(w, w + line.len()) == line;
    assert(actions.last() == RootActionView::WriteFile(layout.app_build_script@, text));
    assert(actions.last()->WriteFile_1.subrange(w, w + line.len()) == line);
}

} // verus!
