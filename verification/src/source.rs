use crate::watch::{
    classify, is_kind_tag, normalize, on_notification, path_views, tag_of, ModifyDetail, RawEvent,
    RawKind, Reaction, WatchEvent, WatchEventView,
};
use notify::event::ModifyKind;
use notify::EventKind;
use vstd::prelude::*;

verus! {

#[verifier::external_type_specification]
#[verifier::external_body]
pub struct ExNotifyEvent(notify::Event);

#[verifier::external_type_specification]
#[verifier::external_body]
pub struct ExNotifyError(notify::Error);

/// The category under which a `notify::Event` reports: the variant of its
/// field `kind` and, for a modification, the variant of the `ModifyKind`
/// in it, without what lies below.
pub uninterp spec fn reported_kind(event: notify::Event) -> RawKind;

/// The paths that a `notify::Event` names in its field `paths`, in order,
/// each as the text that `Path::to_string_lossy` gives: the path itself
/// where it is valid Unicode, with U+FFFD where it is not.
pub uninterp spec fn reported_paths(event: notify::Event) -> Seq<Seq<char>>;

/// Reads the field `kind` of a `notify::Event` and names its variant, and
/// for a modification the variant of its `ModifyKind`, leaving out what
/// lies below. The result depends on the event alone; that is all the
/// contract claims.
#[verifier::external_body]
fn kind_of(event: &notify::Event) -> (kind: RawKind)
    ensures
        kind == reported_kind(*event),
{
    match event.kind {
        EventKind::Any => RawKind::Any,
        EventKind::Access(_) => RawKind::Access,
        EventKind::Create(_) => RawKind::Create,
        EventKind::Modify(ModifyKind::Any) => RawKind::Modify(ModifyDetail::Any),
        EventKind::Modify(ModifyKind::Data(_)) => RawKind::Modify(ModifyDetail::Data),
        EventKind::Modify(ModifyKind::Metadata(_)) => RawKind::Modify(ModifyDetail::Metadata),
        EventKind::Modify(ModifyKind::Name(_)) => RawKind::Modify(ModifyDetail::Name),
        EventKind::Modify(ModifyKind::Other) => RawKind::Modify(ModifyDetail::Other),
        EventKind::Remove(_) => RawKind::Remove,
        EventKind::Other => RawKind::Other,
    }
}

/// Reads the field `paths` of a `notify::Event` and gives each path as
/// text, in order; `Path::to_string_lossy` puts U+FFFD where a path is not
/// valid Unicode. The result depends on the event alone; that is all the
/// contract claims.
#[verifier::external_body]
fn paths_of(event: &notify::Event) -> (paths: Vec<String>)
    ensures
        path_views(paths@) == reported_paths(*event),
{
    event.paths.iter().map(|path| path.to_string_lossy().into_owned()).collect()
}

/// The text that `notify::Error` shows through `Display`: what went wrong
/// and, where the error names paths, those paths. Nothing is claimed of the
/// result.
#[verifier::external_body]
fn shown(error: &notify::Error) -> String {
    error.to_string()
}

/// The text that `notify::Error` shows through `Debug`. Nothing is claimed
/// of the result.
#[verifier::external_body]
fn debugged(error: &notify::Error) -> String {
    format!("{:?}", error)
}

/// What the core reads of a notification of the `notify` event source.
fn raw_event(event: &notify::Event) -> (raw: RawEvent)
    ensures
        raw.kind == reported_kind(*event),
        path_views(raw.paths@) == reported_paths(*event),
{
    RawEvent { kind: kind_of(event), paths: paths_of(event) }
}

/// The record for a notification of the `notify` event source: the tag of
/// the category under which the event reports, and the paths it names, in
/// order. A path that is not valid Unicode never fails it.
pub fn watch_event(event: &notify::Event) -> (record: WatchEvent)
    ensures
        record@ == (WatchEventView {
            kind: tag_of(classify(reported_kind(*event))),
            paths: reported_paths(*event),
        }),
        is_kind_tag(record@.kind),
{
    normalize(raw_event(event))
}

/// Decides what to do about one message of the `notify` event source: a
/// notification is sent on as its record, an error is logged. Neither ends
/// the watch.
pub fn on_source_message(message: &Result<notify::Event, notify::Error>) -> (reaction: Reaction)
    ensures
        message is Ok ==> reaction is Emit && reaction->Emit_0@ == (WatchEventView {
            kind: tag_of(classify(reported_kind(message->Ok_0))),
            paths: reported_paths(message->Ok_0),
        }),
        message is Err ==> reaction is Log,
{
    match message {
        Ok(event) => on_notification(Ok(raw_event(event))),
        Err(error) => on_notification(Err(debugged(error))),
    }
}

/// The outcome of an installation by `notify`, with the error as the text
/// that the session reports.
pub fn install_outcome<W>(outcome: Result<W, notify::Error>) -> (plain: Result<W, String>)
    ensures
        match outcome {
            Ok(watcher) => plain == Ok::<W, String>(watcher),
            Err(_) => plain is Err,
        },
{
    match outcome {
        Ok(watcher) => Ok(watcher),
        Err(error) => Err(shown(&error)),
    }
}

} // verus!
