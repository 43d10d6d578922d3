//! Keeps track of the spans that are going on.
//!
//! A span starts with one event and ends with another. Some spans are
//! roots: they are shown on a line of their own. Every span may name a
//! parent, of which it then is a child for as long as it goes on. The
//! tracker knows every ongoing span by its id, which of them are roots
//! and in what order they started, and how many roots have ended.

use vstd::prelude::*;
use vstd::std_specs::convert::FromSpecImpl;
use vstd::string::to_string_from_display_ensures;
use linked_hash_map::LinkedHashMap;
use std::collections::HashMap;
use crate::linked_keys::lemma_moved_to_back_contains;
use crate::linked_keys::lemma_without_contains;
use crate::linked_keys::linked_insert;
use crate::linked_keys::linked_is_empty;
use crate::linked_keys::linked_keys;
use crate::linked_keys::linked_keys_of;
use crate::linked_keys::linked_len;
use crate::linked_keys::linked_new;
use crate::linked_keys::linked_remove;
use crate::linked_keys::moved_to_back;
use crate::linked_keys::without;

verus! {

broadcast use vstd::std_specs::hash::group_hash_axioms;

/// What a span that starts is about.
#[derive(Debug, Clone, Copy, PartialEq, Eq, Hash, Structural)]
pub enum SpanStartData {
    Command,
    CommandCritical,
    AnalysisStage,
    ExecutorStage,
    MatchDepFiles,
    CacheUpload,
    Materialization,
    ActionExecution,
    FinalMaterialization,
    Analysis,
    Load,
    LoadPackage,
    TestDiscovery,
    TestStart,
    FileWatcher,
    SharedTask,
    CreateOutputSymlinks,
    InstallEventInfo,
    DiceStateUpdate,
    Fake,
}

/// The start of a span.
#[derive(Debug, Clone, Copy, PartialEq, Eq, Hash, Structural)]
pub struct SpanStartEvent {
    pub data: Option<SpanStartData>,
}

/// What an event reports.
#[derive(Debug, Clone, Copy, PartialEq, Eq, Hash, Structural)]
pub enum BuckEventData {
    SpanStart(SpanStartEvent),
    SpanEnd,
    /// Something that happened at one moment and belongs to no span.
    Instant,
}

/// An event: what it reports, the span it belongs to and that span's
/// parent.
#[derive(Debug, Clone, Copy, PartialEq, Eq, Hash, Structural)]
pub struct BuckEvent {
    pub span_id: Option<u64>,
    pub parent_id: Option<u64>,
    pub data: BuckEventData,
}

/// The id of a span where there may be none, as an event names its
/// parent.
#[derive(Debug, Clone, Copy, PartialEq, Eq, Hash, Structural)]
pub struct OptionalSpanId(pub Option<u64>);

impl From<Option<u64>> for OptionalSpanId {
    fn from(id: Option<u64>) -> (optional: OptionalSpanId) {
        OptionalSpanId(id)
    }
}

impl FromSpecImpl<Option<u64>> for OptionalSpanId {
    open spec fn obeys_from_spec() -> bool {
        true
    }

    open spec fn from_spec(id: Option<u64>) -> OptionalSpanId {
        OptionalSpanId(id)
    }
}

impl OptionalSpanId {
    /// The id as it is displayed, or `(none)`.
    pub fn to_text(&self) -> (text: String)
        ensures
            match self.0 {
                Some(id) => to_string_from_display_ensures::<u64>(&id, text),
                None => text@ == "(none)"@,
            },
    {
        match self.0 {
            Some(this) => this.to_string(),
            None => "(none)".to_owned(),
        }
    }
}

/// Why an event could not be taken.
#[derive(Debug, Clone, Copy, PartialEq, Eq, Hash, Structural)]
pub enum SpanTrackerError {
    /// The event ends a span that is not going on, or that is no child of
    /// the parent it names.
    InvalidRemoval(BuckEvent),
    /// The event names a parent that is not going on.
    InvalidParent(BuckEvent),
    /// The event starts or ends a span and names none.
    NonSpanEvent(BuckEvent),
}

/// The event that started a span, and when.
#[derive(Debug, Clone, Copy, PartialEq, Eq, Hash, Structural)]
pub struct SpanInfo {
    pub event: BuckEvent,
    pub start: u64,
}

/// The content of an ongoing span: how it started, and its children in
/// the order in which they started.
pub struct SpanView {
    pub info: SpanInfo,
    pub children: Seq<u64>,
}

/// The content of a [`SpanTracker`].
pub struct SpanTrackerView {
    /// The ongoing roots, in the order in which they started.
    pub roots: Seq<u64>,
    /// Every ongoing span by its id.
    pub all: Map<u64, SpanView>,
    pub roots_completed: nat,
}

/// Whether a span that starts like this is shown on a line of its own.
pub open spec fn spec_span_is_root(event: SpanStartEvent) -> bool {
    match event.data {
        Some(SpanStartData::Command) => false,
        Some(SpanStartData::CommandCritical) => false,
        Some(SpanStartData::AnalysisStage) => false,
        Some(SpanStartData::ExecutorStage) => false,
        Some(SpanStartData::MatchDepFiles) => false,
        Some(SpanStartData::CacheUpload) => false,
        Some(SpanStartData::Materialization) => false,
        Some(_) => true,
        None => false,
    }
}

/// Determines whether a span should be shown as a root, that is on its
/// own line, possibly with its children.
pub fn span_is_root(event: &SpanStartEvent) -> (root: bool)
    ensures
        root == spec_span_is_root(*event),
{
    match event.data {
        Some(
            SpanStartData::Command
            | SpanStartData::CommandCritical
            | SpanStartData::AnalysisStage
            | SpanStartData::ExecutorStage
            | SpanStartData::MatchDepFiles
            | SpanStartData::CacheUpload
            | SpanStartData::Materialization,
        ) => false,
        Some(
            SpanStartData::ActionExecution
            | SpanStartData::FinalMaterialization
            | SpanStartData::Analysis
            | SpanStartData::Load
            | SpanStartData::LoadPackage
            | SpanStartData::TestDiscovery
            | SpanStartData::TestStart
            | SpanStartData::FileWatcher
            | SpanStartData::SharedTask
            | SpanStartData::CreateOutputSymlinks
            | SpanStartData::InstallEventInfo
            | SpanStartData::DiceStateUpdate
            | SpanStartData::Fake,
        ) => true,
        None => false,
    }
}

impl BuckEvent {
    pub fn span_id(&self) -> (id: Option<u64>)
        ensures
            id == self.span_id,
    {
        self.span_id
    }

    pub fn parent_id(&self) -> (id: Option<u64>)
        ensures
            id == self.parent_id,
    {
        self.parent_id
    }

    /// The start that the event reports, if it reports one.
    pub fn span_start_event(&self) -> (start: Option<SpanStartEvent>)
        ensures
            start == match self.data {
                BuckEventData::SpanStart(start) => Some(start),
                _ => None,
            },
    {
        match self.data {
            BuckEventData::SpanStart(start) => Some(start),
            _ => None,
        }
    }

    /// Whether the event reports the end of a span.
    pub fn span_end_event(&self) -> (end: bool)
        ensures
            end == (self.data == BuckEventData::SpanEnd),
    {
        matches!(self.data, BuckEventData::SpanEnd)
    }
}

impl SpanTrackerView {
    /// Every root is an ongoing span.
    pub open spec fn wf(self) -> bool {
        forall|id: u64| self.roots.contains(id) ==> self.all.contains_key(id)
    }

    /// Every child of an ongoing span is an ongoing span.
    pub open spec fn children_known(self) -> bool {
        forall|parent: u64, i: int|
            self.all.contains_key(parent) && 0 <= i < self.all[parent].children.len()
                ==> self.all.contains_key(#[trigger] self.all[parent].children[i])
    }

    /// A tracker that has seen nothing.
    pub open spec fn empty() -> SpanTrackerView {
        SpanTrackerView { roots: Seq::empty(), all: Map::empty(), roots_completed: 0 }
    }

    /// With the span `span_id` going on. A span that goes on already stays
    /// as it is.
    pub open spec fn register(self, span_id: u64, info: SpanInfo) -> SpanTrackerView {
        if self.all.contains_key(span_id) {
            self
        } else {
            SpanTrackerView {
                all: self.all.insert(span_id, SpanView { info, children: Seq::empty() }),
                ..self
            }
        }
    }

    /// With `span_id` as the latest root.
    pub open spec fn add_root(self, span_id: u64) -> SpanTrackerView {
        SpanTrackerView { roots: moved_to_back(self.roots, span_id), ..self }
    }

    /// With `span_id` as the latest child of `parent`.
    pub open spec fn add_child(self, parent: u64, span_id: u64) -> SpanTrackerView {
        SpanTrackerView {
            all: self.all.insert(
                parent,
                SpanView {
                    children: moved_to_back(self.all[parent].children, span_id),
                    ..self.all[parent]
                },
            ),
            ..self
        }
    }

    /// Without `span_id` among the children of `parent`.
    pub open spec fn remove_child(self, parent: u64, span_id: u64) -> SpanTrackerView {
        SpanTrackerView {
            all: self.all.insert(
                parent,
                SpanView {
                    children: without(self.all[parent].children, span_id),
                    ..self.all[parent]
                },
            ),
            ..self
        }
    }

    /// Without `span_id` among the roots; if it was one, one more root has
    /// completed.
    pub open spec fn complete_root(self, span_id: u64) -> SpanTrackerView {
        SpanTrackerView {
            roots: without(self.roots, span_id),
            roots_completed: if self.roots.contains(span_id) {
                self.roots_completed + 1
            } else {
                self.roots_completed
            },
            ..self
        }
    }

    /// The tracker after the span of `event` has started at the time `at`,
    /// and whether that went well.
    ///
    /// The span is registered, and made a root if it is one, even where
    /// its parent then turns out not to be going on.
    pub open spec fn start_at(self, start: SpanStartEvent, event: BuckEvent, at: u64) -> (
        SpanTrackerView,
        Result<(), SpanTrackerError>,
    ) {
        match event.span_id {
            None => (self, Err(SpanTrackerError::NonSpanEvent(event))),
            Some(span_id) => {
                let registered = self.register(span_id, SpanInfo { event, start: at });
                let rooted = if spec_span_is_root(start) {
                    registered.add_root(span_id)
                } else {
                    registered
                };
                match event.parent_id {
                    None => (rooted, Ok(())),
                    Some(parent) => if rooted.all.contains_key(parent) {
                        (rooted.add_child(parent, span_id), Ok(()))
                    } else {
                        (rooted, Err(SpanTrackerError::InvalidParent(event)))
                    },
                }
            },
        }
    }

    /// The tracker after the span of `event` has ended, and whether that
    /// went well.
    ///
    /// The span stops being a root, and being a child of its parent, even
    /// where the end then turns out to be invalid.
    pub open spec fn end(self, event: BuckEvent) -> (SpanTrackerView, Result<(), SpanTrackerError>) {
        match event.span_id {
            None => (self, Err(SpanTrackerError::NonSpanEvent(event))),
            Some(span_id) => {
                let unrooted = self.complete_root(span_id);
                let orphaned = match event.parent_id {
                    Some(parent) if unrooted.all.contains_key(parent) => unrooted.remove_child(
                        parent,
                        span_id,
                    ),
                    _ => unrooted,
                };
                match event.parent_id {
                    Some(parent) if !unrooted.all.contains_key(parent) => (
                        unrooted,
                        Err(SpanTrackerError::InvalidParent(event)),
                    ),
                    Some(parent) if !unrooted.all[parent].children.contains(span_id) => (
                        orphaned,
                        Err(SpanTrackerError::InvalidRemoval(event)),
                    ),
                    _ => if orphaned.all.contains_key(span_id) {
                        (SpanTrackerView { all: orphaned.all.remove(span_id), ..orphaned }, Ok(()))
                    } else {
                        (orphaned, Err(SpanTrackerError::InvalidRemoval(event)))
                    },
                }
            },
        }
    }

    /// The tracker after `event`, taken at the time `now`: a start starts a
    /// span, an end ends one, and anything else changes nothing.
    pub open spec fn handle_event(self, event: BuckEvent, now: u64) -> (
        SpanTrackerView,
        Result<(), SpanTrackerError>,
    ) {
        match event.data {
            BuckEventData::SpanStart(start) => self.start_at(start, event, now),
            BuckEventData::SpanEnd => self.end(event),
            BuckEventData::Instant => (self, Ok(())),
        }
    }

    /// A start keeps every root an ongoing span.
    pub proof fn lemma_start_keeps_wf(self, start: SpanStartEvent, event: BuckEvent, at: u64)
        requires
            self.wf(),
        ensures
            self.start_at(start, event, at).0.wf(),
    {
        let after = self.start_at(start, event, at).0;
        match event.span_id {
            None => {},
            Some(span_id) => {
                assert forall|id: u64| after.roots.contains(id) implies after.all.contains_key(
                    id,
                ) by {
                    lemma_moved_to_back_contains(self.roots, span_id, id);
                }
            },
        }
    }

    /// An end keeps every root an ongoing span.
    pub proof fn lemma_end_keeps_wf(self, event: BuckEvent)
        requires
            self.wf(),
        ensures
            self.end(event).0.wf(),
    {
        let after = self.end(event).0;
        match event.span_id {
            None => {},
            Some(span_id) => {
                assert forall|id: u64| after.roots.contains(id) implies after.all.contains_key(
                    id,
                ) by {
                    lemma_without_contains(self.roots, span_id, id);
                }
            },
        }
    }

    /// Whatever events come, every root stays an ongoing span.
    pub proof fn lemma_wf_is_kept(self, event: BuckEvent, now: u64)
        requires
            self.wf(),
        ensures
            Self::empty().wf(),
            self.handle_event(event, now).0.wf(),
    {
        match event.data {
            BuckEventData::SpanStart(start) => self.lemma_start_keeps_wf(start, event, now),
            BuckEventData::SpanEnd => self.lemma_end_keeps_wf(event),
            BuckEventData::Instant => {},
        }
    }

    /// Whether `span_id` is a child of no span but `parent`.
    pub open spec fn child_of_none_but(self, span_id: u64, parent: Option<u64>) -> bool {
        forall|p: u64|
            self.all.contains_key(p) && (#[trigger] self.all[p]).children.contains(span_id)
                ==> parent == Some(p)
    }

    /// A start keeps every child an ongoing span.
    pub proof fn lemma_start_keeps_children_known(
        self,
        start: SpanStartEvent,
        event: BuckEvent,
        at: u64,
    )
        requires
            self.children_known(),
        ensures
            self.start_at(start, event, at).0.children_known(),
    {
        let after = self.start_at(start, event, at).0;
        match event.span_id {
            None => {},
            Some(span_id) => {
                assert forall|parent: u64, i: int|
                    after.all.contains_key(parent) && 0 <= i
                        < after.all[parent].children.len() implies after.all.contains_key(
                    #[trigger] after.all[parent].children[i],
                ) by {
                    let child = after.all[parent].children[i];
                    assert(after.all[parent].children.contains(child));
                    if self.all.contains_key(parent) {
                        lemma_moved_to_back_contains(self.all[parent].children, span_id, child);
                        if self.all[parent].children.contains(child) {
                            let j = choose|j: int|
                                0 <= j < self.all[parent].children.len()
                                    && self.all[parent].children[j] == child;
                            assert(self.all.contains_key(self.all[parent].children[j]));
                        }
                    }
                }
            },
        }
    }

    /// An end keeps every child an ongoing span, provided that the span
    /// that ends is a child of no span but the parent that the end names.
    pub proof fn lemma_end_keeps_children_known(self, event: BuckEvent)
        requires
            self.children_known(),
            event.span_id matches Some(span_id) ==> self.child_of_none_but(span_id, event.parent_id),
        ensures
            self.end(event).0.children_known(),
    {
        let after = self.end(event).0;
        match event.span_id {
            None => {},
            Some(span_id) => {
                assert forall|parent: u64, i: int|
                    after.all.contains_key(parent) && 0 <= i
                        < after.all[parent].children.len() implies after.all.contains_key(
                    #[trigger] after.all[parent].children[i],
                ) by {
                    let child = after.all[parent].children[i];
                    assert(after.all[parent].children.contains(child));
                    assert(self.all.contains_key(parent));
                    lemma_without_contains(self.all[parent].children, span_id, child);
                    assert(self.all[parent].children.contains(child));
                    let j = choose|j: int|
                        0 <= j < self.all[parent].children.len() && self.all[parent].children[j]
                            == child;
                    assert(self.all.contains_key(self.all[parent].children[j]));
                    if child == span_id && after.all != self.all {
                        assert(self.all[parent].children.contains(span_id));
                    }
                }
            },
        }
    }

    /// The roots that have ended are counted: an end counts one more
    /// exactly when its span was a root, and nothing else changes the
    /// count.
    pub proof fn lemma_roots_completed(self, event: BuckEvent, now: u64)
        ensures
            self.handle_event(event, now).0.roots_completed == self.roots_completed + if event.data
                == BuckEventData::SpanEnd && event.span_id is Some && self.roots.contains(
                event.span_id->Some_0,
            ) {
                1nat
            } else {
                0nat
            },
    {
    }
}

/// An ongoing span.
pub struct Span {
    info: SpanInfo,
    children: LinkedHashMap<u64, ()>,
}

impl View for Span {
    type V = SpanView;

    closed spec fn view(&self) -> SpanView {
        SpanView { info: self.info, children: linked_keys(self.children) }
    }
}

/// The contents of the spans in `all`.
spec fn span_views(all: Map<u64, Span>) -> Map<u64, SpanView> {
    Map::new(|id: u64| all.contains_key(id), |id: u64| all[id]@)
}

/// Registers the span `span_id` in `all`, unless it is there.
fn register(all: &mut HashMap<u64, Span>, span_id: u64, info: SpanInfo)
    ensures
        span_views(final(all)@) == if span_views(old(all)@).contains_key(span_id) {
            span_views(old(all)@)
        } else {
            span_views(old(all)@).insert(span_id, SpanView { info, children: Seq::empty() })
        },
{
    if !all.contains_key(&span_id) {
        all.insert(span_id, Span { info, children: linked_new() });
        assert(span_views(all@) =~= span_views(old(all)@).insert(
            span_id,
            SpanView { info, children: Seq::empty() },
        ));
    } else {
        assert(span_views(all@) =~= span_views(old(all)@));
    }
}

/// Makes `span_id` the latest child of `parent`, if `parent` is in `all`.
fn add_child(all: &mut HashMap<u64, Span>, parent: u64, span_id: u64) -> (found: bool)
    ensures
        found == span_views(old(all)@).contains_key(parent),
        span_views(final(all)@) == if found {
            span_views(old(all)@).insert(
                parent,
                SpanView {
                    children: moved_to_back(span_views(old(all)@)[parent].children, span_id),
                    ..span_views(old(all)@)[parent]
                },
            )
        } else {
            span_views(old(all)@)
        },
{
    match all.remove(&parent) {
        None => {
            assert(span_views(all@) =~= span_views(old(all)@));
            false
        },
        Some(span) => {
            let mut span = span;
            linked_insert(&mut span.children, span_id);
            all.insert(parent, span);
            assert(span_views(all@) =~= span_views(old(all)@).insert(
                parent,
                SpanView {
                    children: moved_to_back(span_views(old(all)@)[parent].children, span_id),
                    ..span_views(old(all)@)[parent]
                },
            ));
            true
        },
    }
}

/// Takes `span_id` from the children of `parent`. Says whether it was one
/// of them, or nothing if `parent` is not in `all`.
fn remove_child(all: &mut HashMap<u64, Span>, parent: u64, span_id: u64) -> (removed: Option<bool>)
    ensures
        removed is Some == span_views(old(all)@).contains_key(parent),
        removed matches Some(was_child) ==> was_child == span_views(
            old(all)@,
        )[parent].children.contains(span_id),
        span_views(final(all)@) == if removed is Some {
            span_views(old(all)@).insert(
                parent,
                SpanView {
                    children: without(span_views(old(all)@)[parent].children, span_id),
                    ..span_views(old(all)@)[parent]
                },
            )
        } else {
            span_views(old(all)@)
        },
{
    match all.remove(&parent) {
        None => {
            assert(span_views(all@) =~= span_views(old(all)@));
            None
        },
        Some(span) => {
            let mut span = span;
            let was_child = linked_remove(&mut span.children, span_id).is_some();
            all.insert(parent, span);
            assert(span_views(all@) =~= span_views(old(all)@).insert(
                parent,
                SpanView {
                    children: without(span_views(old(all)@)[parent].children, span_id),
                    ..span_views(old(all)@)[parent]
                },
            ));
            Some(was_child)
        },
    }
}

/// Takes the span `span_id` from `all`. Says whether it was there.
fn unregister(all: &mut HashMap<u64, Span>, span_id: u64) -> (removed: bool)
    ensures
        removed == span_views(old(all)@).contains_key(span_id),
        span_views(final(all)@) == span_views(old(all)@).remove(span_id),
{
    let removed = all.remove(&span_id).is_some();
    assert(span_views(all@) =~= span_views(old(all)@).remove(span_id));
    removed
}

/// Tracks the ongoing spans, as the events tell of them.
///
/// It is required that the start and the end of one span name the same
/// parent. A root is always an ongoing span: a tracker is made that way and
/// every event keeps it so. A child is one as long as the events keep to
/// that requirement.
pub struct SpanTracker {
    roots: LinkedHashMap<u64, ()>,
    all: HashMap<u64, Span>,
    roots_completed: usize,
}

impl View for SpanTracker {
    type V = SpanTrackerView;

    closed spec fn view(&self) -> SpanTrackerView {
        SpanTrackerView {
            roots: linked_keys(self.roots),
            all: span_views(self.all@),
            roots_completed: self.roots_completed as nat,
        }
    }
}

/// A span, together with the tracker that knows its children.
pub struct SpanHandle<'a> {
    tracker: &'a SpanTracker,
    span: &'a Span,
}

impl<'a> View for SpanHandle<'a> {
    type V = SpanView;

    closed spec fn view(&self) -> SpanView {
        self.span@
    }
}

impl<'a> SpanHandle<'a> {
    /// The tracker that the span was taken from.
    pub closed spec fn tracker(&self) -> SpanTracker {
        *self.tracker
    }

    /// How the span started.
    pub fn info(&self) -> (info: &SpanInfo)
        ensures
            *info == self@.info,
    {
        &self.span.info
    }

    /// Whether every child of the span is an ongoing span of the tracker.
    pub open spec fn children_known(&self) -> bool {
        forall|i: int|
            0 <= i < self@.children.len() ==> self.tracker()@.all.contains_key(
                #[trigger] self@.children[i],
            )
    }

    /// The children of the span, in the order in which they started.
    pub fn children(&self) -> (children: Vec<SpanHandle<'a>>)
        requires
            self.children_known(),
        ensures
            children@.len() == self@.children.len(),
            forall|i: int|
                0 <= i < children@.len() ==> (#[trigger] children@[i])@
                    == self.tracker()@.all[self@.children[i]] && children@[i].tracker()
                    == self.tracker(),
            self.tracker()@.children_known() ==> forall|i: int|
                0 <= i < children@.len() ==> (#[trigger] children@[i]).children_known(),
    {
        let ids = linked_keys_of(&self.span.children);
        let mut children: Vec<SpanHandle<'a>> = Vec::new();
        let mut i: usize = 0;
        while i < ids.len()
            invariant
                i <= ids@.len(),
                ids@ == self@.children,
                self.children_known(),
                children@.len() == i,
                forall|j: int|
                    0 <= j < i ==> (#[trigger] children@[j])@
                        == self.tracker()@.all[self@.children[j]] && children@[j].tracker()
                        == self.tracker(),
            decreases ids@.len() - i,
        {
            assert(self.tracker()@.all.contains_key(self@.children[i as int]));
            let span = self.tracker.all.get(&ids[i]);
            children.push(SpanHandle { tracker: self.tracker, span: span.unwrap() });
            i = i + 1;
        }
        proof {
            if self.tracker()@.children_known() {
                assert forall|i: int| 0 <= i < children@.len() implies (
                #[trigger] children@[i]).children_known() by {
                    let id = self@.children[i];
                    assert forall|k: int|
                        0 <= k < children@[i]@.children.len() implies children@[i]
                        .tracker()@.all.contains_key(#[trigger] children@[i]@.children[k]) by {
                        assert(self.tracker()@.all.contains_key(
                            self.tracker()@.all[id].children[k],
                        ));
                    }
                }
            }
        }
        children
    }
}

impl SpanTracker {
    /// A tracker that has seen nothing.
    pub fn new() -> (tracker: SpanTracker)
        ensures
            tracker@ == SpanTrackerView::empty(),
            tracker@.wf(),
    {
        let tracker = SpanTracker { roots: linked_new(), all: HashMap::new(), roots_completed: 0 };
        assert(tracker@.all =~= Map::empty());
        tracker
    }

    /// Takes the start of a span at the time `at`.
    pub fn start_at(&mut self, start: &SpanStartEvent, event: &BuckEvent, at: u64) -> (result:
        Result<(), SpanTrackerError>)
        ensures
            (final(self)@, result) == old(self)@.start_at(*start, *event, at),
            old(self)@.wf() ==> final(self)@.wf(),
    {
        proof {
            if old(self)@.wf() {
                old(self)@.lemma_start_keeps_wf(*start, *event, at);
            }
        }
        let is_root = span_is_root(start);
        let span_id = match event.span_id() {
            Some(span_id) => span_id,
            None => {
                return Err(SpanTrackerError::NonSpanEvent(*event));
            },
        };

        register(&mut self.all, span_id, SpanInfo { event: *event, start: at });
        if is_root {
            linked_insert(&mut self.roots, span_id);
        }
        if let Some(parent_id) = event.parent_id() {
            if !add_child(&mut self.all, parent_id, span_id) {
                return Err(SpanTrackerError::InvalidParent(*event));
            }
        }
        Ok(())
    }

    /// Takes the end of a span.
    pub fn end(&mut self, event: &BuckEvent) -> (result: Result<(), SpanTrackerError>)
        requires
            old(self)@.roots_completed < usize::MAX,
        ensures
            (final(self)@, result) == old(self)@.end(*event),
            old(self)@.wf() ==> final(self)@.wf(),
    {
        proof {
            if old(self)@.wf() {
                old(self)@.lemma_end_keeps_wf(*event);
            }
        }
        let span_id = match event.span_id() {
            Some(span_id) => span_id,
            None => {
                return Err(SpanTrackerError::NonSpanEvent(*event));
            },
        };

        // This event might not be eligible as a root, but nothing can be a
        // root that is not an ongoing span, so it stops being one first.
        // Besides, this tells whether it was a root, which is counted.
        if linked_remove(&mut self.roots, span_id).is_some() {
            self.roots_completed = self.roots_completed + 1;
        }

        if let Some(parent_id) = event.parent_id() {
            match remove_child(&mut self.all, parent_id, span_id) {
                None => {
                    return Err(SpanTrackerError::InvalidParent(*event));
                },
                Some(false) => {
                    return Err(SpanTrackerError::InvalidRemoval(*event));
                },
                Some(true) => {},
            }
        }
        let ghost orphaned = self@;
        if !unregister(&mut self.all, span_id) {
            assert(self@.all =~= orphaned.all);
            return Err(SpanTrackerError::InvalidRemoval(*event));
        }
        Ok(())
    }

    /// The ongoing roots, in the order in which they started.
    pub fn iter_roots<'a>(&'a self) -> (roots: Vec<SpanHandle<'a>>)
        requires
            self@.wf(),
        ensures
            roots@.len() == self@.roots.len(),
            forall|i: int|
                0 <= i < roots@.len() ==> (#[trigger] roots@[i])@ == self@.all[self@.roots[i]]
                    && roots@[i].tracker() == *self,
            self@.children_known() ==> forall|i: int|
                0 <= i < roots@.len() ==> (#[trigger] roots@[i]).children_known(),
    {
        let ids = linked_keys_of(&self.roots);
        let mut roots: Vec<SpanHandle<'a>> = Vec::new();
        let mut i: usize = 0;
        while i < ids.len()
            invariant
                i <= ids@.len(),
                ids@ == self@.roots,
                self@.wf(),
                roots@.len() == i,
                forall|j: int|
                    0 <= j < i ==> (#[trigger] roots@[j])@ == self@.all[self@.roots[j]]
                        && roots@[j].tracker() == *self,
            decreases ids@.len() - i,
        {
            // A root is registered before it is made a root, and stops being
            // a root before it stops being registered.
            assert(self@.roots.contains(self@.roots[i as int]));
            let span = self.all.get(&ids[i]);
            roots.push(SpanHandle { tracker: self, span: span.unwrap() });
            i = i + 1;
        }
        proof {
            if self@.children_known() {
                assert forall|i: int| 0 <= i < roots@.len() implies (
                #[trigger] roots@[i]).children_known() by {
                    let id = self@.roots[i];
                    assert(self@.roots.contains(id));
                    assert forall|k: int| 0 <= k < roots@[i]@.children.len() implies roots@[i]
                        .tracker()@.all.contains_key(#[trigger] roots@[i]@.children[k]) by {
                        assert(self@.all.contains_key(self@.all[id].children[k]));
                    }
                }
            }
        }
        roots
    }

    /// How many roots have ended.
    pub fn roots_completed(&self) -> (n: usize)
        ensures
            n == self@.roots_completed,
    {
        self.roots_completed
    }

    /// Whether the tracker has never had a root.
    pub fn is_unused(&self) -> (unused: bool)
        ensures
            unused == (self@.roots.len() == 0 && self@.roots_completed == 0),
    {
        linked_is_empty(&self.roots) && self.roots_completed == 0
    }

    /// How many roots are going on.
    pub fn roots_ongoing(&self) -> (n: usize)
        ensures
            n == self@.roots.len(),
    {
        linked_len(&self.roots)
    }

    /// Takes `event` at the time `now`: a start starts a span, an end ends
    /// one, and anything else changes nothing.
    pub fn handle_event(&mut self, event: &BuckEvent, now: u64) -> (result: Result<
        (),
        SpanTrackerError,
    >)
        requires
            old(self)@.roots_completed < usize::MAX,
        ensures
            (final(self)@, result) == old(self)@.handle_event(*event, now),
            old(self)@.wf() ==> final(self)@.wf(),
    {
        if let Some(start) = event.span_start_event() {
            self.start_at(&start, event, now)
        } else if event.span_end_event() {
            self.end(event)
        } else {
            Ok(())
        }
    }

    /// How the span `span_id` started, if it is going on.
    pub fn get(&self, span_id: OptionalSpanId) -> (info: Option<SpanInfo>)
        ensures
            info == match span_id.0 {
                Some(id) if self@.all.contains_key(id) => Some(self@.all[id].info),
                _ => None,
            },
    {
        let span_id = span_id.0?;
        match self.all.get(&span_id) {
            Some(span) => Some(span.info),
            None => None,
        }
    }
}

} // verus!
