//! The event filter: which filesystem notifications matter to the one input
//! input file.
//!
//! Two questions are asked of every notification. Is its kind a real change
//! (a create, a remove, or a modification of name, data or metadata)? And does
//! one of its paths name the watched input? The second is a disjunction of
//! three tests, because editors replace a file in different ways: by writing in
//! place, by renaming over it, by unlinking and recreating it.

use vstd::prelude::*;
use crate::paths::{
    file_name, is_absolute, join, parent, path_file_name, path_is_absolute, path_join,
    path_parent, paths_equal, same_path,
};

verus! {

/// What was modified, for a notification of kind [`EventKind::Modify`].
#[derive(Clone, Copy, Debug, PartialEq, Eq, Structural)]
pub enum ModifyKind {
    /// Something changed, and the watcher cannot say what.
    Any,
    /// The content of the file.
    Data,
    /// Its metadata: times, permissions, ownership.
    Metadata,
    /// Its name.
    Name,
    /// A modification of none of the kinds above.
    Other,
}

/// The kind of a filesystem notification.
#[derive(Clone, Copy, Debug, PartialEq, Eq, Structural)]
pub enum EventKind {
    /// The catch-all kind of a watcher that cannot tell more.
    Any,
    /// The file was opened, read or closed; nothing changed.
    Access,
    /// A file or directory was created.
    Create,
    /// A file or directory was modified.
    Modify(ModifyKind),
    /// A file or directory was removed.
    Remove,
    /// A notification about something else, such as the watch itself.
    Other,
}

/// One path of a notification, with what the filesystem said of it.
#[derive(Debug, PartialEq, Eq)]
pub struct ObservedPath {
    /// The path as the watcher reported it, absolute or relative to the watched
    /// directory.
    pub path: String,
    /// The canonical form of the candidate that [`candidate_path`] makes of
    /// `path`, or `None` where the filesystem could not resolve it, as happens
    /// while an editor replaces the file.
    pub canonical: Option<String>,
}

/// The mathematical content of an [`ObservedPath`].
pub struct ObservedPathView {
    pub path: Seq<char>,
    pub canonical: Option<Seq<char>>,
}

impl View for ObservedPath {
    type V = ObservedPathView;

    open spec fn view(&self) -> ObservedPathView {
        ObservedPathView {
            path: self.path@,
            canonical: match self.canonical {
                Some(c) => Some(c@),
                None => None,
            },
        }
    }
}

/// A filesystem notification: a kind, and the paths it is about.
#[derive(Debug, PartialEq, Eq)]
pub struct WatchEvent {
    pub kind: EventKind,
    pub paths: Vec<ObservedPath>,
}

/// The mathematical content of a [`WatchEvent`].
pub struct WatchEventView {
    pub kind: EventKind,
    pub paths: Seq<ObservedPathView>,
}

impl View for WatchEvent {
    type V = WatchEventView;

    open spec fn view(&self) -> WatchEventView {
        WatchEventView {
            kind: self.kind,
            paths: Seq::new(self.paths@.len(), |i: int| self.paths@[i]@),
        }
    }
}

/// The mathematical content of a [`TrackedInput`].
pub struct TrackedInputView {
    /// The path as it was declared.
    pub path: Seq<char>,
    /// The directory that is watched for it.
    pub watch_dir: Seq<char>,
    /// The canonical form that events are compared with.
    pub canonical: Seq<char>,
}

impl TrackedInputView {
    /// The invariant of a watched input: the watched directory is the one that
    /// [`watch_dir_of`] derives from the declared path.
    pub open spec fn wf(self) -> bool {
        self.watch_dir == watch_dir_of(self.path)
    }
}

/// The identity of the one file that is watched: its declared path, the
/// directory watched for it, and its canonical form, taken once when the watch
/// starts.
#[derive(Debug)]
pub struct TrackedInput {
    path: String,
    watch_dir: String,
    canonical: String,
}

impl View for TrackedInput {
    type V = TrackedInputView;

    closed spec fn view(&self) -> TrackedInputView {
        TrackedInputView {
            path: self.path@,
            watch_dir: self.watch_dir@,
            canonical: self.canonical@,
        }
    }
}

/// The directory to watch for an input: its parent, or `.` where the path has
/// none.
pub open spec fn watch_dir_of(path: Seq<char>) -> Seq<char> {
    match path_parent(path) {
        Some(dir) => dir,
        None => "."@,
    }
}

/// The canonical form to compare events with: the one that the filesystem
/// gave, or the declared path itself where it gave none.
pub open spec fn canonical_or_declared(path: Seq<char>, canonical: Option<Seq<char>>) -> Seq<
    char,
> {
    match canonical {
        Some(c) => c,
        None => path,
    }
}

impl TrackedInput {
    #[verifier::type_invariant]
    spec fn inv(self) -> bool {
        self@.wf()
    }

    /// Starts tracking `path`. `canonical` is the canonical form that the
    /// filesystem gave for it, or `None` where it gave none: the watched input
    /// then falls back on the declared path.
    pub fn new(path: String, canonical: Option<String>) -> (input: TrackedInput)
        ensures
            input@.wf(),
            input@.path == path@,
            input@.canonical == canonical_or_declared(
                path@,
                match canonical {
                    Some(c) => Some(c@),
                    None => None,
                },
            ),
    {
        let watch_dir = match parent(path.as_str()) {
            Some(dir) => dir,
            None => ".".to_owned(),
        };
        let canonical = match canonical {
            Some(c) => c,
            None => path.clone(),
        };
        TrackedInput { path, watch_dir, canonical }
    }

    /// The path as it was declared.
    pub fn path(&self) -> (path: &str)
        ensures
            path@ == self@.path,
    {
        self.path.as_str()
    }

    /// The directory to watch.
    pub fn watch_dir(&self) -> (dir: &str)
        ensures
            dir@ == self@.watch_dir,
            self@.wf(),
    {
        proof {
            use_type_invariant(self);
        }
        self.watch_dir.as_str()
    }

    /// The canonical form that events are compared with.
    pub fn canonical(&self) -> (canonical: &str)
        ensures
            canonical@ == self@.canonical,
    {
        self.canonical.as_str()
    }
}

/// Whether a notification of this kind reports a real change: a create, a
/// remove, or a modification of name, data or metadata, or one the watcher
/// could not classify. Access and everything else is not.
pub open spec fn is_relevant(kind: EventKind) -> bool {
    kind is Create || kind is Remove || (kind matches EventKind::Modify(what) && what
        != ModifyKind::Other)
}

/// Decides whether an event's kind calls for a look at its paths.
///
/// An event that only reports access is never relevant.
pub fn relevant_event(event: &WatchEvent) -> (relevant: bool)
    ensures
        relevant == is_relevant(event@.kind),
        event@.kind is Access ==> !relevant,
{
    match event.kind {
        EventKind::Create | EventKind::Remove => true,
        EventKind::Modify(what) => match what {
            ModifyKind::Other => false,
            _ => true,
        },
        _ => false,
    }
}

/// The absolute candidate for a reported path: the path itself where it is
/// absolute, else the path joined to the watched directory.
pub open spec fn candidate_of(path: Seq<char>, watch_dir: Seq<char>) -> Seq<char> {
    if path_is_absolute(path) {
        path
    } else {
        path_join(watch_dir, path)
    }
}

/// Resolves a reported path against the watched directory.
pub fn candidate_path(path: &str, watch_dir: &str) -> (candidate: String)
    ensures
        candidate@ == candidate_of(path@, watch_dir@),
{
    if is_absolute(path) {
        path.to_owned()
    } else {
        join(watch_dir, path)
    }
}

/// The first test: the candidate's canonical form is the watched input's.
pub open spec fn matches_canonical(observed: ObservedPathView, input: TrackedInputView) -> bool {
    observed.canonical matches Some(c) && same_path(c, input.canonical)
}

/// The second test: the candidate and the watched input both have a file name,
/// and it is the same.
pub open spec fn matches_file_name(observed: ObservedPathView, input: TrackedInputView) -> bool {
    let candidate = candidate_of(observed.path, input.watch_dir);
    path_file_name(candidate) is Some && path_file_name(candidate) == path_file_name(
        input.path,
    )
}

/// The third test: the candidate is the declared path.
pub open spec fn matches_literal(observed: ObservedPathView, input: TrackedInputView) -> bool {
    same_path(candidate_of(observed.path, input.watch_dir), input.path)
}

/// Whether one reported path names the watched input: any of the three tests
/// is enough.
pub open spec fn path_targets(observed: ObservedPathView, input: TrackedInputView) -> bool {
    matches_canonical(observed, input) || matches_file_name(observed, input)
        || matches_literal(observed, input)
}

/// Whether a reported path is the watched input to the letter: its canonical
/// form is the input's, or its candidate is the declared path, character for
/// character. Such a path passes the first or the third test, whatever the
/// platform makes of paths.
pub open spec fn same_in_text(observed: ObservedPathView, input: TrackedInputView) -> bool {
    observed.canonical == Some(input.canonical) || candidate_of(observed.path, input.watch_dir)
        == input.path
}

/// Whether some path of the event names the watched input.
pub open spec fn targets_input(event: WatchEventView, input: TrackedInputView) -> bool {
    exists|i: int| 0 <= i < event.paths.len() && path_targets(#[trigger] event.paths[i], input)
}

/// Decides whether one reported path names the watched input. A path whose
/// canonical form or whose candidate is the input's to the letter always does.
pub fn path_targets_input(observed: &ObservedPath, input: &TrackedInput) -> (targets: bool)
    ensures
        targets == path_targets(observed@, input@),
        observed@.canonical == Some(input@.canonical) ==> targets,
        candidate_of(observed@.path, input@.watch_dir) == input@.path ==> targets,
{
    let candidate = candidate_path(observed.path.as_str(), input.watch_dir());
    if let Some(canonical) = &observed.canonical {
        if paths_equal(canonical.as_str(), input.canonical()) {
            return true;
        }
    }
    if let Some(reported) = file_name(candidate.as_str()) {
        if let Some(wanted) = file_name(input.path()) {
            if reported == wanted {
                return true;
            }
        }
    }
    paths_equal(candidate.as_str(), input.path())
}

/// Decides whether an event is about the watched input: true exactly when one
/// of its paths passes one of the three tests. An event one of whose paths is
/// the input's to the letter, by canonical form or by candidate, always is.
pub fn event_targets_input(event: &WatchEvent, input: &TrackedInput) -> (targets: bool)
    ensures
        targets == targets_input(event@, input@),
        (exists|i: int|
            0 <= i < event@.paths.len() && same_in_text(#[trigger] event@.paths[i], input@))
            ==> targets,
{
    let mut i: usize = 0;
    while i < event.paths.len()
        invariant
            i <= event.paths.len(),
            forall|j: int| 0 <= j < i ==> !path_targets(#[trigger] event@.paths[j], input@),
            forall|j: int| 0 <= j < i ==> !same_in_text(#[trigger] event@.paths[j], input@),
        decreases event.paths.len() - i,
    {
        if path_targets_input(&event.paths[i], input) {
            assert(path_targets(event@.paths[i as int], input@));
            return true;
        }
        i += 1;
    }
    false
}

/// Any one form of equality is enough: an event one of whose paths equals the
/// watched input by canonical form, or by file name, or literally, targets it.
pub proof fn lemma_any_one_form_suffices(event: WatchEventView, input: TrackedInputView, i: int)
    requires
        0 <= i < event.paths.len(),
        matches_canonical(event.paths[i], input) || matches_file_name(event.paths[i], input)
            || matches_literal(event.paths[i], input),
    ensures
        targets_input(event, input),
{
    assert(path_targets(event.paths[i], input));
}

/// Where no path of an event equals the watched input by any of the three
/// forms, the event does not target it.
pub proof fn lemma_no_form_no_target(event: WatchEventView, input: TrackedInputView)
    requires
        forall|i: int|
            0 <= i < event.paths.len() ==> !matches_canonical(#[trigger] event.paths[i], input)
                && !matches_file_name(event.paths[i], input) && !matches_literal(
                event.paths[i],
                input,
            ),
    ensures
        !targets_input(event, input),
{
}

} // verus!
