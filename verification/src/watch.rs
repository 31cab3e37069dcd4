use crate::error::{CoreError, CoreErrorView};
use vstd::prelude::*;

verus! {

/// How the OS event source described a change to content, name or
/// metadata.
#[derive(Clone, Copy, Debug, PartialEq, Eq, Structural)]
pub enum ModifyDetail {
    Any,
    Data,
    Metadata,
    Name,
    Other,
}

/// The category under which the OS event source reported an event.
#[derive(Clone, Copy, Debug, PartialEq, Eq, Structural)]
pub enum RawKind {
    Any,
    Access,
    Create,
    Modify(ModifyDetail),
    Remove,
    Other,
}

/// The categories that the presentation layer is told of. They are the same
/// on every OS backend.
#[derive(Clone, Copy, Debug, PartialEq, Eq, Structural)]
pub enum ChangeKind {
    Create,
    Modify,
    Remove,
    Rename,
    Other,
}

/// The category that stands for what the event source reported: a change of
/// name is a rename, any other modification a modify, and what is neither a
/// creation, a modification nor a removal is other.
pub open spec fn classify(raw: RawKind) -> ChangeKind {
    match raw {
        RawKind::Create => ChangeKind::Create,
        RawKind::Modify(ModifyDetail::Name) => ChangeKind::Rename,
        RawKind::Modify(_) => ChangeKind::Modify,
        RawKind::Remove => ChangeKind::Remove,
        RawKind::Any => ChangeKind::Other,
        RawKind::Access => ChangeKind::Other,
        RawKind::Other => ChangeKind::Other,
    }
}

/// The tag of a category.
pub open spec fn tag_of(kind: ChangeKind) -> Seq<char> {
    match kind {
        ChangeKind::Create => "create"@,
        ChangeKind::Modify => "modify"@,
        ChangeKind::Remove => "remove"@,
        ChangeKind::Rename => "rename"@,
        ChangeKind::Other => "other"@,
    }
}

/// `tag` is the tag of one of the categories.
pub open spec fn is_kind_tag(tag: Seq<char>) -> bool {
    exists|kind: ChangeKind| tag == tag_of(kind)
}

impl RawKind {
    /// The category that the presentation layer is told of.
    pub fn classify(&self) -> (kind: ChangeKind)
        ensures
            kind == classify(*self),
    {
        match self {
            RawKind::Create => ChangeKind::Create,
            RawKind::Modify(detail) => match detail {
                ModifyDetail::Name => ChangeKind::Rename,
                _ => ChangeKind::Modify,
            },
            RawKind::Remove => ChangeKind::Remove,
            _ => ChangeKind::Other,
        }
    }
}

impl ChangeKind {
    /// The tag of the category.
    pub fn tag(&self) -> (tag: &'static str)
        ensures
            tag@ == tag_of(*self),
    {
        match self {
            ChangeKind::Create => "create",
            ChangeKind::Modify => "modify",
            ChangeKind::Remove => "remove",
            ChangeKind::Rename => "rename",
            ChangeKind::Other => "other",
        }
    }
}

/// One notification of the OS event source: its category and the paths it
/// names, in the order in which the source gave them.
#[derive(Debug)]
pub struct RawEvent {
    pub kind: RawKind,
    pub paths: Vec<String>,
}

/// The record sent to the presentation layer for one notification.
#[derive(Debug)]
pub struct WatchEvent {
    pub kind: String,
    pub paths: Vec<String>,
}

/// The mathematical value of a [`WatchEvent`].
pub struct WatchEventView {
    pub kind: Seq<char>,
    pub paths: Seq<Seq<char>>,
}

/// The texts of a list of paths.
pub open spec fn path_views(paths: Seq<String>) -> Seq<Seq<char>> {
    paths.map_values(|path: String| path@)
}

impl View for WatchEvent {
    type V = WatchEventView;

    open spec fn view(&self) -> WatchEventView {
        WatchEventView { kind: self.kind@, paths: path_views(self.paths@) }
    }
}

/// The record for a notification: the tag of its category, and its paths
/// as they came.
pub open spec fn change_event(raw: RawEvent) -> WatchEventView {
    WatchEventView { kind: tag_of(classify(raw.kind)), paths: path_views(raw.paths@) }
}

/// Turns one notification into the record for the presentation layer.
/// Every notification gives exactly one record; none is merged or dropped.
pub fn normalize(raw: RawEvent) -> (event: WatchEvent)
    ensures
        event@ == change_event(raw),
        is_kind_tag(event@.kind),
{
    let tag = raw.kind.classify().tag();
    WatchEvent { kind: tag.to_owned(), paths: raw.paths }
}

/// What the watcher does about one message of the OS event source.
#[derive(Debug)]
pub enum Reaction {
    /// Send the record to the subscriber.
    Emit(WatchEvent),
    /// Write the text to the log.
    Log(String),
}

/// Decides what to do about one message of the OS event source: a
/// notification is sent on as its record, an error of the source is
/// logged. Neither ends the watch.
pub fn on_notification(message: Result<RawEvent, String>) -> (reaction: Reaction)
    ensures
        match message {
            Ok(raw) => reaction is Emit && reaction->Emit_0@ == change_event(raw),
            Err(text) => reaction is Log && reaction->Log_0@ == text@,
        },
{
    match message {
        Ok(raw) => Reaction::Emit(normalize(raw)),
        Err(text) => Reaction::Log(text),
    }
}

/// Decides what to do once a record was handed to the subscriber: a failed
/// delivery is logged and nothing else; the watch goes on.
pub fn on_delivery(outcome: Result<(), String>) -> (log: Option<String>)
    ensures
        match outcome {
            Ok(_) => log is None,
            Err(text) => log is Some && log->Some_0@ == text@,
        },
{
    match outcome {
        Ok(_) => None,
        Err(text) => Some(text),
    }
}

/// The permission to install one watch. Only [`WatchSession::begin`] gives
/// one out, after it has released the watch before.
#[derive(Debug)]
pub struct InstallRequest {
    path: String,
    recursive: bool,
}

impl InstallRequest {
    /// The text of the directory to watch.
    pub closed spec fn target(&self) -> Seq<char> {
        self.path@
    }

    /// Whether the watch covers all descendants of the directory.
    pub closed spec fn covers_subtree(&self) -> bool {
        self.recursive
    }

    /// The directory to watch.
    pub fn path(&self) -> (path: &String)
        ensures
            path@ == self.target(),
    {
        &self.path
    }

    /// Whether the watch is to cover all descendants of the directory.
    pub fn recursive(&self) -> (recursive: bool)
        ensures
            recursive == self.covers_subtree(),
    {
        self.recursive
    }
}

/// The state of a session once a replacement has begun: no watch.
pub open spec fn begun<W>(before: Option<W>) -> Option<W> {
    None
}

/// The state of a session once an installation has ended: the new watch, or
/// none where the installation failed.
pub open spec fn settled<W>(before: Option<W>, outcome: Result<W, String>) -> Option<W> {
    match outcome {
        Ok(watcher) => Some(watcher),
        Err(_) => None,
    }
}

/// What the caller is told once an installation has ended.
pub open spec fn report<W>(outcome: Result<W, String>) -> Result<(), CoreErrorView> {
    match outcome {
        Ok(_) => Ok(()),
        Err(text) => Err(CoreErrorView::WatchInstallError { message: text@ }),
    }
}

/// The slot for the one watch of a process. `W` is the handle of a watch;
/// dropping it ends the watch and frees what the OS held for it.
pub struct WatchSession<W> {
    watcher: Option<W>,
}

impl<W> View for WatchSession<W> {
    type V = Option<W>;

    closed spec fn view(&self) -> Option<W> {
        self.watcher
    }
}

impl<W> WatchSession<W> {
    /// A session without a watch.
    pub fn new() -> (session: Self)
        ensures
            session@ is None,
    {
        WatchSession { watcher: None }
    }

    /// Whether a watch is active.
    pub fn is_active(&self) -> (active: bool)
        ensures
            active == (self@ is Some),
    {
        self.watcher.is_some()
    }

    /// Begins the replacement of the watch: releases the watch that is
    /// active, if any, and permits the installation of one on `path` and
    /// all that lies below it.
    pub fn begin(&mut self, path: String) -> (request: InstallRequest)
        ensures
            final(self)@ == begun(old(self)@),
            request.target() == path@,
            request.covers_subtree(),
    {
        self.watcher = None;
        InstallRequest { path, recursive: true }
    }

    /// Ends the replacement with the outcome of the installation: the handle
    /// of the new watch, or the text of the OS error. After a failure the
    /// session holds no watch.
    pub fn settle(&mut self, request: InstallRequest, outcome: Result<W, String>) -> (told: Result<
        (),
        CoreError,
    >)
        ensures
            final(self)@ == settled(old(self)@, outcome),
            match told {
                Ok(_) => report(outcome) is Ok,
                Err(error) => report(outcome) == Err::<(), CoreErrorView>(error@),
            },
    {
        match outcome {
            Ok(watcher) => {
                self.watcher = Some(watcher);
                Ok(())
            },
            Err(message) => {
                self.watcher = None;
                Err(CoreError::WatchInstallError { message })
            },
        }
    }

    /// Releases the watch that is active, if any.
    pub fn release(&mut self)
        ensures
            final(self)@ is None,
    {
        self.watcher = None;
    }
}

/// Replacing a watch keeps nothing of the watch before: the session holds
/// no watch from the moment the replacement begins, and what it holds in the
/// end depends on the outcome of the installation alone.
pub proof fn law_replacement_releases_prior<W>(
    first: Option<W>,
    second: Option<W>,
    outcome: Result<W, String>,
)
    ensures
        begun(first) is None,
        settled(begun(first), outcome) == settled(begun(second), outcome),
        outcome is Ok ==> settled(begun(first), outcome) == Some(outcome->Ok_0),
{
}

/// A failed installation leaves the session without a watch, whether or not
/// one was active before, and is reported with the text of the OS error.
pub proof fn law_failed_install_leaves_none<W>(before: Option<W>, message: String)
    ensures
        settled(begun(before), Err::<W, String>(message)) is None,
        report(Err::<W, String>(message)) == Err::<(), CoreErrorView>(
            CoreErrorView::WatchInstallError { message: message@ },
        ),
{
}

} // verus!
