//! The watch event adapter: maps a raw filesystem event to at most one
//! sort invocation. Events that create a file or close one after writing
//! are candidates; a candidate passes an optional ignore pattern; every
//! other event is ignored. An event without a path never reaches the sort
//! engine.

use vstd::prelude::*;

use crate::sort::{spec_basic_ctx, spec_sort_start, Sorter, SortStep, SortStepModel};

verus! {

/// The kind of a filesystem event, as the library models it. The caller
/// maps its event source's kinds onto these; everything that is neither a
/// file creation nor a write-close maps to `Other`.
#[derive(Clone, Copy, Debug, PartialEq, Eq, Structural)]
pub enum WatchEventKind {
    CreateFile,
    CloseWrite,
    RemoveFile,
    Other,
}

/// A filesystem event: a kind and the affected paths in textual form.
#[derive(Debug)]
pub struct WatchEvent {
    pub kind: WatchEventKind,
    pub paths: Vec<String>,
}

pub struct WatchEventModel {
    pub kind: WatchEventKind,
    pub paths: Seq<Seq<char>>,
}

impl WatchEvent {
    pub open spec fn model(&self) -> WatchEventModel {
        WatchEventModel { kind: self.kind, paths: self.paths.deep_view() }
    }
}

fn clone_paths(paths: &Vec<String>) -> (r: Vec<String>)
    ensures
        r.deep_view() == paths.deep_view(),
{
    let mut r: Vec<String> = Vec::new();
    let n = paths.len();
    let mut i: usize = 0;
    while i < n
        invariant
            i <= n,
            n == paths@.len(),
            r@.len() == i,
            r.deep_view() =~= paths.deep_view().take(i as int),
        decreases n - i,
    {
        let ghost before = r.deep_view();
        r.push(paths[i].clone());
        assert(r.deep_view() =~= paths.deep_view().take(i + 1)) by {
            assert(r@.len() == i + 1);
            assert(r.deep_view().len() == r@.len());
            assert forall|t: int| 0 <= t < i implies r.deep_view()[t] == before[t] by {
                assert(r@[t] == r@.drop_last()[t]);
            }
            assert(r.deep_view()[i as int] == paths.deep_view()[i as int]);
        }
        i += 1;
    }
    assert(r.deep_view() =~= paths.deep_view());
    r
}

fn clone_event(e: &WatchEvent) -> (r: WatchEvent)
    ensures
        r.model() == e.model(),
{
    WatchEvent { kind: e.kind, paths: clone_paths(&e.paths) }
}

/// Why an event was filtered away before sorting.
#[derive(Debug)]
pub enum FilterReason {
    /// The event names no path at all.
    MissingEventPath(WatchEvent),
    /// The first path matched the ignore pattern.
    MatchIgnoreRegex(String),
}

pub enum FilterReasonModel {
    MissingEventPath(WatchEventModel),
    MatchIgnoreRegex(Seq<char>),
}

impl FilterReason {
    pub open spec fn model(&self) -> FilterReasonModel {
        match self {
            FilterReason::MissingEventPath(e) => FilterReasonModel::MissingEventPath(e.model()),
            FilterReason::MatchIgnoreRegex(p) => FilterReasonModel::MatchIgnoreRegex(p@),
        }
    }
}

/// Whether a pattern is a valid regular expression.
pub uninterp spec fn pattern_compiles(pattern: Seq<char>) -> bool;

/// Whether a valid pattern matches anywhere in a text.
pub uninterp spec fn ignore_matches(pattern: Seq<char>, text: Seq<char>) -> bool;

/// Relies on regex::Regex::new: whether the pattern compiles as a regular
/// expression, a function of the pattern alone.
#[verifier::external_body]
fn regex_pattern_ok(pattern: &str) -> (r: bool)
    ensures
        r == pattern_compiles(pattern@),
{
    match regex::Regex::new(pattern) {
        Ok(_) => true,
        Err(_) => false,
    }
}

/// Relies on regex::Regex::is_match: whether the pattern matches anywhere
/// in the text, a function of the pattern and the text alone. The pattern
/// is compiled afresh; the caller has checked that it compiles.
#[verifier::external_body]
fn regex_is_match(pattern: &str, text: &str) -> (r: bool)
    requires
        pattern_compiles(pattern@),
    ensures
        r == ignore_matches(pattern@, text@),
{
    match regex::Regex::new(pattern) {
        Ok(re) => re.is_match(text),
        Err(_) => false,
    }
}

/// What filtering decides, as a function of the pattern and the event: an
/// event without paths is rejected; with no pattern, or a pattern that
/// does not compile or does not match the first path, the event passes.
pub open spec fn spec_filter(pattern: Option<Seq<char>>, ev: WatchEventModel) -> Result<
    (),
    FilterReasonModel,
> {
    if ev.paths.len() == 0 {
        Err(FilterReasonModel::MissingEventPath(ev))
    } else {
        match pattern {
            None => Ok(()),
            Some(p) => {
                if pattern_compiles(p) && ignore_matches(p, ev.paths[0]) {
                    Err(FilterReasonModel::MatchIgnoreRegex(ev.paths[0]))
                } else {
                    Ok(())
                }
            },
        }
    }
}

/// Filters candidate events by presence of a path and an optional ignore
/// pattern on the path's textual form.
#[derive(Debug)]
pub struct EventFilter {
    ignore_pattern: Option<String>,
}

impl EventFilter {
    pub closed spec fn spec_pattern(&self) -> Option<Seq<char>> {
        match self.ignore_pattern {
            Some(ref p) => Some(p@),
            None => None,
        }
    }

    pub fn new(ignore_pattern: Option<String>) -> (r: Self)
        ensures
            r.spec_pattern() == (match ignore_pattern {
                Some(p) => Some(p@),
                None => None::<Seq<char>>,
            }),
    {
        Self { ignore_pattern }
    }

    /// Decides whether the event may be sorted, or why not.
    pub fn filter(&self, event: &WatchEvent) -> (r: Result<(), FilterReason>)
        ensures
            match r {
                Ok(_) => spec_filter(self.spec_pattern(), event.model()) is Ok && event.model().paths.len()
                    > 0,
                Err(reason) => spec_filter(self.spec_pattern(), event.model()) == Err::<
                    (),
                    FilterReasonModel,
                >(reason.model()),
            },
    {
        let n = event.paths.len();
        if n == 0 {
            return Err(FilterReason::MissingEventPath(clone_event(event)));
        }
        assert(event.model().paths.len() == n);
        match &self.ignore_pattern {
            None => Ok(()),
            Some(p) => {
                let path: &String = &event.paths[0];
                assert(path@ == event.model().paths[0]);
                if regex_pattern_ok(p.as_str()) && regex_is_match(p.as_str(), path.as_str()) {
                    Err(FilterReason::MatchIgnoreRegex(path.clone()))
                } else {
                    Ok(())
                }
            },
        }
    }
}

/// What handling an event yields: filtered with its reason, ignored for
/// its kind, or a started sort run for the event's first path.
#[derive(Debug)]
pub enum EventHandlerResult {
    Ignored(WatchEvent),
    Sort(String, SortStep),
    Filtered(FilterReason),
}

pub enum EventHandlerResultModel {
    Ignored(WatchEventModel),
    Sort(Seq<char>, SortStepModel),
    Filtered(FilterReasonModel),
}

impl EventHandlerResult {
    pub open spec fn model(&self) -> EventHandlerResultModel {
        match self {
            EventHandlerResult::Ignored(e) => EventHandlerResultModel::Ignored(e.model()),
            EventHandlerResult::Sort(p, s) => EventHandlerResultModel::Sort(p@, s.model()),
            EventHandlerResult::Filtered(r) => EventHandlerResultModel::Filtered(r.model()),
        }
    }
}

/// Classifies one event and, for a candidate that passes the filter,
/// starts the sort run for its first path.
#[derive(Debug)]
pub struct EventHandler {
    event_filter: EventFilter,
    sorter: Sorter,
}

/// What handling must yield, as a function of the filter pattern, the
/// sorter's configuration, and the event.
pub open spec fn spec_handle_event(
    pattern: Option<Seq<char>>,
    tokens: Seq<crate::template::TokenModel>,
    chain: Seq<crate::replicator::ReplicatorKind>,
    overwrite: bool,
    ev: WatchEventModel,
) -> EventHandlerResultModel {
    if ev.kind == WatchEventKind::CreateFile || ev.kind == WatchEventKind::CloseWrite {
        match spec_filter(pattern, ev) {
            Err(reason) => EventHandlerResultModel::Filtered(reason),
            Ok(_) => EventHandlerResultModel::Sort(
                ev.paths[0],
                spec_sort_start(tokens, chain, overwrite, ev.paths[0], spec_basic_ctx(ev.paths[0])),
            ),
        }
    } else {
        EventHandlerResultModel::Ignored(ev)
    }
}

impl EventHandler {
    pub closed spec fn spec_pattern(&self) -> Option<Seq<char>> {
        self.event_filter.spec_pattern()
    }

    pub closed spec fn spec_template(&self) -> Seq<crate::template::TokenModel> {
        self.sorter.spec_template()
    }

    pub closed spec fn spec_chain(&self) -> Seq<crate::replicator::ReplicatorKind> {
        self.sorter.spec_chain()
    }

    pub closed spec fn spec_overwrite(&self) -> bool {
        self.sorter.spec_overwrite()
    }

    pub fn new(event_filter: EventFilter, sorter: Sorter) -> (r: Self)
        ensures
            r.spec_pattern() == event_filter.spec_pattern(),
            r.spec_template() == sorter.spec_template(),
            r.spec_chain() == sorter.spec_chain(),
            r.spec_overwrite() == sorter.spec_overwrite(),
    {
        Self { event_filter, sorter }
    }

    /// Handles one event: ignores kinds that are no candidates, filters
    /// the rest, and starts the sort run for the first path.
    pub fn handle_event(&self, event: WatchEvent) -> (r: EventHandlerResult)
        ensures
            r.model() == spec_handle_event(
                self.spec_pattern(),
                self.spec_template(),
                self.spec_chain(),
                self.spec_overwrite(),
                event.model(),
            ),
    {
        match event.kind {
            WatchEventKind::CreateFile | WatchEventKind::CloseWrite => {
                match self.event_filter.filter(&event) {
                    Err(reason) => EventHandlerResult::Filtered(reason),
                    Ok(_) => {
                        let src: String = event.paths[0].clone();
                        let step = self.sorter.sort_file(src.as_str());
                        EventHandlerResult::Sort(src, step)
                    },
                }
            },
            _ => EventHandlerResult::Ignored(event),
        }
    }
}

/// A registered watch: the directories to watch, and the sorter every
/// delivered event is handed to.
#[derive(Debug)]
pub struct Watcher {
    sources: Vec<String>,
    sorter: Sorter,
}

impl Watcher {
    pub closed spec fn spec_sources(&self) -> Seq<Seq<char>> {
        self.sources.deep_view()
    }

    pub closed spec fn spec_template(&self) -> Seq<crate::template::TokenModel> {
        self.sorter.spec_template()
    }

    pub closed spec fn spec_chain(&self) -> Seq<crate::replicator::ReplicatorKind> {
        self.sorter.spec_chain()
    }

    pub closed spec fn spec_overwrite(&self) -> bool {
        self.sorter.spec_overwrite()
    }

    pub fn new(sources: Vec<String>, sorter: Sorter) -> (r: Self)
        ensures
            r.spec_sources() == sources.deep_view(),
            r.spec_template() == sorter.spec_template(),
            r.spec_chain() == sorter.spec_chain(),
            r.spec_overwrite() == sorter.spec_overwrite(),
    {
        Watcher { sources, sorter }
    }

    /// The directories this watcher watches.
    pub fn sources(&self) -> (r: &Vec<String>)
        ensures
            r.deep_view() == self.spec_sources(),
    {
        &self.sources
    }

    /// The sorter events are handed to.
    pub fn sorter(&self) -> (r: &Sorter)
        ensures
            r.spec_template() == self.spec_template(),
            r.spec_chain() == self.spec_chain(),
            r.spec_overwrite() == self.spec_overwrite(),
    {
        &self.sorter
    }
}

} // verus!
