//! The single file watch and the events it reports.
//!
//! At most one file is watched at a time. Starting a watch is the caller's
//! part, since only the caller can talk to the operating system; the manager
//! keeps the handle and decides what a watch request and an event lead to.
//! A request runs in two steps inside one critical section: `begin_watch`
//! drops the old watch and says which directory to watch, `finish_watch`
//! takes what came of starting the new one.

use crate::error::CommandError;
use crate::notification::Notification;
use crate::path::{watch_directory, ValidatedPath};
use vstd::prelude::*;

verus! {

/// `notify::event::AccessKind`: what an access event carries. Only carried
/// through.
#[verifier::external_type_specification]
#[verifier::external_body]
pub struct ExAccessKind(notify::event::AccessKind);

/// `notify::event::CreateKind`: what a creation event carries. Only carried
/// through.
#[verifier::external_type_specification]
#[verifier::external_body]
pub struct ExCreateKind(notify::event::CreateKind);

/// `notify::event::RemoveKind`: what a removal event carries. Only carried
/// through.
#[verifier::external_type_specification]
#[verifier::external_body]
pub struct ExRemoveKind(notify::event::RemoveKind);

/// `notify::event::DataChange`: what a change of content carries. Only
/// carried through.
#[verifier::external_type_specification]
#[verifier::external_body]
pub struct ExDataChange(notify::event::DataChange);

/// `notify::event::MetadataKind`: what a change of metadata carries. Only
/// carried through.
#[verifier::external_type_specification]
#[verifier::external_body]
pub struct ExMetadataKind(notify::event::MetadataKind);

/// `notify::event::RenameMode`: what a rename carries. Only carried through.
#[verifier::external_type_specification]
#[verifier::external_body]
pub struct ExRenameMode(notify::event::RenameMode);

/// `notify::event::ModifyKind`, with its variants as that crate declares
/// them: the logic tells a change of metadata from the others.
#[verifier::external_type_specification]
pub struct ExModifyKind(notify::event::ModifyKind);

/// `notify::EventKind`, with its variants as that crate declares them: the
/// logic tells creations and modifications from the rest.
#[verifier::external_type_specification]
pub struct ExEventKind(notify::EventKind);

/// `notify::RecursiveMode`, with its variants as that crate declares them:
/// the logic picks the one that leaves subdirectories out.
#[verifier::external_type_specification]
pub struct ExRecursiveMode(notify::RecursiveMode);

/// `notify::EventKind::is_modify` answers whether the kind is the `Modify`
/// variant, whatever that variant carries.
pub assume_specification[ notify::EventKind::is_modify ](kind: &notify::EventKind) -> (modify: bool)
    ensures
        modify == (kind is Modify),
;

/// `notify::EventKind::is_create` answers whether the kind is the `Create`
/// variant, whatever that variant carries.
pub assume_specification[ notify::EventKind::is_create ](kind: &notify::EventKind) -> (create: bool)
    ensures
        create == (kind is Create),
;

/// Whether an event of this kind tells of nothing but a change of metadata
/// (times, permissions, ownership), with the content untouched.
pub open spec fn is_metadata_only(kind: notify::EventKind) -> bool {
    kind matches notify::EventKind::Modify(notify::event::ModifyKind::Metadata(_))
}

/// Whether an event of this kind is passed on to the UI. A creation is, and
/// so is a modification unless it changed metadata alone. Anything else (an
/// access, a removal, an unknown kind) is not.
pub open spec fn is_relevant(kind: notify::EventKind) -> bool {
    kind is Create || (kind is Modify && !is_metadata_only(kind))
}

/// Tells a change of metadata alone from the other kinds of event.
pub fn changes_metadata_only(kind: &notify::EventKind) -> (metadata_only: bool)
    ensures
        metadata_only == is_metadata_only(*kind),
{
    match kind {
        notify::EventKind::Modify(notify::event::ModifyKind::Metadata(_)) => true,
        _ => false,
    }
}

/// Decides what to tell the UI about one event from the watched directory.
///
/// A relevant event yields one notification, and it carries the path that
/// was registered for watching. The event's own paths are not consulted: a
/// change to another file in the same directory is reported in the same way.
/// Any other kind of event yields nothing.
pub fn notification_for(watched: &ValidatedPath, kind: &notify::EventKind) -> (notification: Option<
    Notification,
>)
    ensures
        is_relevant(*kind) ==> (notification matches Some(Notification::FileChanged { path })
            && path@ == watched@),
        !is_relevant(*kind) ==> notification is None,
{
    if kind.is_create() || (kind.is_modify() && !changes_metadata_only(kind)) {
        Some(Notification::FileChanged { path: watched.as_str().to_owned() })
    } else {
        None
    }
}

/// The watch in place, as contracts see it.
pub ghost struct ActiveWatch<H> {
    /// The file that was registered.
    pub path: Seq<char>,
    /// The directory that is watched on its behalf.
    pub directory: Seq<char>,
    /// The handle that keeps the watch alive.
    pub handle: H,
}

/// The state after the first step of a watch request: whatever was in place
/// is gone.
pub open spec fn after_begin<H>(before: Option<ActiveWatch<H>>) -> Option<ActiveWatch<H>> {
    None
}

/// The state after the second step of a watch request for `path`, given what
/// came of starting the watch: the new watch on success, none on failure.
pub open spec fn after_finish<H>(
    before: Option<ActiveWatch<H>>,
    path: Seq<char>,
    started: Option<H>,
) -> Option<ActiveWatch<H>> {
    match started {
        Some(handle) => Some(ActiveWatch { path, directory: watch_directory(path), handle }),
        None => None,
    }
}

/// The state after a whole watch request: both steps in turn.
pub open spec fn after_watch<H>(
    before: Option<ActiveWatch<H>>,
    path: Seq<char>,
    started: Option<H>,
) -> Option<ActiveWatch<H>> {
    after_finish(after_begin(before), path, started)
}

/// The state after dropping the watch.
pub open spec fn after_unwatch<H>(before: Option<ActiveWatch<H>>) -> Option<ActiveWatch<H>> {
    None
}

/// What a caller has after trying to start a watch, as contracts see it: the
/// handle, or nothing.
pub open spec fn handle_of<H>(started: Result<H, String>) -> Option<H> {
    match started {
        Ok(handle) => Some(handle),
        Err(_) => None,
    }
}

/// A watch request on its way: the old watch is gone, the new one not yet
/// started. Made by [`FileWatchManager::begin_watch`] and used up by
/// [`FileWatchManager::finish_watch`].
pub struct WatchPlan {
    path: ValidatedPath,
    directory: String,
}

impl WatchPlan {
    #[verifier::type_invariant]
    spec fn well_formed(self) -> bool {
        self.directory@ == watch_directory(self.path@)
    }

    /// The file to watch, as contracts see it.
    pub closed spec fn path_text(self) -> Seq<char> {
        self.path@
    }

    /// The file to watch.
    pub fn path(&self) -> (path: &ValidatedPath)
        ensures
            path@ == self.path_text(),
    {
        &self.path
    }

    /// How deep the watch reaches: the directory alone, without its
    /// subdirectories.
    pub fn recursive_mode(&self) -> (mode: notify::RecursiveMode)
        ensures
            mode is NonRecursive,
    {
        notify::RecursiveMode::NonRecursive
    }

    /// The directory to hand to the operating system.
    pub fn directory(&self) -> (directory: &str)
        ensures
            directory@ == watch_directory(self.path_text()),
    {
        proof {
            use_type_invariant(self);
        }
        self.directory.as_str()
    }
}

/// Owner of the one watch there may be. `H` is the handle that keeps a watch
/// alive; dropping it ends the watch.
pub struct FileWatchManager<H> {
    active: Option<Watched<H>>,
}

struct Watched<H> {
    path: ValidatedPath,
    directory: String,
    handle: H,
}

impl<H> View for FileWatchManager<H> {
    type V = Option<ActiveWatch<H>>;

    closed spec fn view(&self) -> Option<ActiveWatch<H>> {
        match self.active {
            Some(watched) => Some(
                ActiveWatch {
                    path: watched.path@,
                    directory: watched.directory@,
                    handle: watched.handle,
                },
            ),
            None => None,
        }
    }
}

impl<H> FileWatchManager<H> {
    /// A manager with no watch.
    pub fn new() -> (manager: Self)
        ensures
            manager@ is None,
    {
        FileWatchManager { active: None }
    }

    /// Whether a watch is in place.
    pub fn is_watching(&self) -> (watching: bool)
        ensures
            watching == (self@ is Some),
    {
        self.active.is_some()
    }

    /// The file whose watch is in place, if any.
    pub fn watched_path(&self) -> (path: Option<&ValidatedPath>)
        ensures
            match path {
                Some(p) => self@ is Some && self@->Some_0.path == p@,
                None => self@ is None,
            },
    {
        match &self.active {
            Some(watched) => Some(&watched.path),
            None => None,
        }
    }

    /// The directory that is watched, if any.
    pub fn watched_directory(&self) -> (directory: Option<&str>)
        ensures
            match directory {
                Some(d) => self@ is Some && self@->Some_0.directory == d@,
                None => self@ is None,
            },
    {
        match &self.active {
            Some(watched) => Some(watched.directory.as_str()),
            None => None,
        }
    }

    /// The handle that keeps the watch alive, if any.
    pub fn handle(&self) -> (handle: Option<&H>)
        ensures
            match handle {
                Some(h) => self@ is Some && self@->Some_0.handle == *h,
                None => self@ is None,
            },
    {
        match &self.active {
            Some(watched) => Some(&watched.handle),
            None => None,
        }
    }

    /// First step of a watch request: drops the watch in place, if there is
    /// one, and plans the new watch.
    pub fn begin_watch(&mut self, path: ValidatedPath) -> (plan: WatchPlan)
        ensures
            final(self)@ == after_begin(old(self)@),
            plan.path_text() == path@,
    {
        self.active = None;
        let directory = path.watch_directory();
        WatchPlan { path, directory }
    }

    /// Second step of a watch request: takes what came of starting the watch
    /// on the planned directory. On success the handle is kept and the watch
    /// is in place. On failure the request fails with the words of the
    /// refusal and no watch is in place; the earlier one is not brought back.
    pub fn finish_watch(&mut self, plan: WatchPlan, started: Result<H, String>) -> (outcome: Result<
        (),
        CommandError,
    >)
        ensures
            final(self)@ == after_finish(old(self)@, plan.path_text(), handle_of(started)),
            started is Ok ==> outcome is Ok,
            started matches Err(refusal) ==> outcome == Err::<(), CommandError>(
                CommandError::WatchStart(refusal),
            ),
    {
        proof {
            use_type_invariant(&plan);
        }
        match started {
            Ok(handle) => {
                self.active = Some(Watched { path: plan.path, directory: plan.directory, handle });
                Ok(())
            },
            Err(refusal) => {
                self.active = None;
                Err(CommandError::WatchStart(refusal))
            },
        }
    }

    /// Drops the watch in place. Without one this does nothing, and it never
    /// fails.
    pub fn unwatch(&mut self)
        ensures
            final(self)@ == after_unwatch(old(self)@),
    {
        self.active = None;
    }
}

/// Watching one file and then another leaves exactly one watch in place,
/// whatever was there before: the second, on the directory of the second
/// file, kept alive by the second handle.
pub proof fn lemma_second_watch_replaces_first<H>(
    before: Option<ActiveWatch<H>>,
    first: Seq<char>,
    first_handle: H,
    second: Seq<char>,
    second_handle: H,
)
    ensures
        after_watch(after_watch(before, first, Some(first_handle)), second, Some(second_handle))
            == Some(
            ActiveWatch {
                path: second,
                directory: watch_directory(second),
                handle: second_handle,
            },
        ),
{
}

/// A watch that could not be started leaves no watch in place, whatever was
/// there before.
pub proof fn lemma_failed_watch_leaves_none<H>(before: Option<ActiveWatch<H>>, path: Seq<char>)
    ensures
        after_watch(before, path, None::<H>) is None,
{
}

/// Dropping the watch where there is none changes nothing, and dropping it
/// twice is the same as dropping it once.
pub proof fn lemma_unwatch_is_idempotent<H>(before: Option<ActiveWatch<H>>)
    ensures
        after_unwatch(None::<ActiveWatch<H>>) == None::<ActiveWatch<H>>,
        after_unwatch(after_unwatch(before)) == after_unwatch(before),
{
}

} // verus!
