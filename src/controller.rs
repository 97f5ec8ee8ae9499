//! The search entry controller. Each text change issues a lookup tagged with
//! a new generation; a finished lookup commits to the result list only when
//! it carries the newest generation, so a late answer to an older query never
//! overwrites fresher results. A failed lookup leaves the list as it was.
use vstd::prelude::*;
use vstd::string::StringSliceAdditionalSpecFns;
use crate::encoding::{build_request_url, request_url};
use crate::lookup::{LookupError, SearchResult, outcome_view};
use crate::model::ResultListModel;

verus! {

/// The controller's state as a mathematical value.
pub struct ControllerState {
    /// The generation of the newest lookup issued (0 before any).
    pub latest: int,
    /// Whether the newest lookup is still in flight.
    pub awaiting: bool,
    /// The current text of the search entry.
    pub query: Seq<char>,
    /// The rows of the result list.
    pub rows: Seq<SearchResult>,
}

/// What became of a finished lookup.
#[derive(Clone, Copy, Debug, PartialEq, Eq, Structural)]
pub enum Commit {
    /// Its result set replaced the rows of the list.
    Applied,
    /// It failed; the list is unchanged.
    Failed(LookupError),
    /// A newer lookup was issued since, or it had finished already; it is
    /// discarded and the list is unchanged.
    Stale,
}

/// A lookup to perform: the generation it must be reported back with, and
/// the URL (ASCII bytes) of its GET request.
#[derive(Debug)]
pub struct LookupTicket {
    pub generation: u64,
    pub url: Vec<u8>,
}

pub open spec fn initial_state(rows: Seq<SearchResult>) -> ControllerState {
    ControllerState { latest: 0, awaiting: false, query: Seq::empty(), rows }
}

/// The state after the entry's text changed to `text`.
pub open spec fn after_text_changed(s: ControllerState, text: Seq<char>) -> ControllerState {
    ControllerState { latest: s.latest + 1, awaiting: true, query: text, rows: s.rows }
}

/// Whether a lookup of generation `generation` that finishes in state `s`
/// is the newest one still in flight.
pub open spec fn is_current(s: ControllerState, generation: int) -> bool {
    s.awaiting && generation == s.latest
}

/// The state after the lookup of generation `generation` finished with
/// `outcome`.
pub open spec fn after_lookup_finished(
    s: ControllerState,
    generation: int,
    outcome: Result<Seq<SearchResult>, LookupError>,
) -> ControllerState {
    if !is_current(s, generation) {
        s
    } else {
        match outcome {
            Ok(rows) => ControllerState { awaiting: false, rows, ..s },
            Err(_) => ControllerState { awaiting: false, ..s },
        }
    }
}

pub open spec fn commit_of(
    s: ControllerState,
    generation: int,
    outcome: Result<Seq<SearchResult>, LookupError>,
) -> Commit {
    if !is_current(s, generation) {
        Commit::Stale
    } else {
        match outcome {
            Ok(_) => Commit::Applied,
            Err(e) => Commit::Failed(e),
        }
    }
}

/// Owns the query state and the result list model.
#[derive(Debug)]
pub struct SearchController {
    latest: u64,
    awaiting: bool,
    query: String,
    model: ResultListModel,
}

impl View for SearchController {
    type V = ControllerState;

    closed spec fn view(&self) -> ControllerState {
        ControllerState {
            latest: self.latest as int,
            awaiting: self.awaiting,
            query: self.query@,
            rows: self.model@,
        }
    }
}

impl SearchController {
    /// A controller, idle, over `model`.
    pub fn new(model: ResultListModel) -> (r: SearchController)
        ensures
            r@ == initial_state(model@),
    {
        SearchController { latest: 0, awaiting: false, query: String::new(), model }
    }

    /// The entry's text changed to `text`: issue a lookup of it under a new
    /// generation. The result list is left as it is until the lookup
    /// finishes.
    pub fn text_changed(&mut self, text: &str) -> (t: LookupTicket)
        requires
            old(self)@.latest < u64::MAX,
        ensures
            final(self)@ == after_text_changed(old(self)@, text@),
            t.generation == final(self)@.latest,
            t.url@ == request_url(text.spec_bytes()),
    {
        self.latest = self.latest + 1;
        self.awaiting = true;
        self.query = text.to_owned();
        LookupTicket { generation: self.latest, url: build_request_url(text) }
    }

    /// The lookup of generation `generation` finished with `outcome`. Only
    /// the newest lookup still in flight is taken: on success its results
    /// replace the list's rows in order, on failure the rows stay.
    pub fn lookup_finished(
        &mut self,
        generation: u64,
        outcome: Result<Vec<SearchResult>, LookupError>,
    ) -> (c: Commit)
        ensures
            final(self)@ == after_lookup_finished(old(self)@, generation as int, outcome_view(outcome)),
            c == commit_of(old(self)@, generation as int, outcome_view(outcome)),
    {
        if !self.awaiting || generation != self.latest {
            return Commit::Stale;
        }
        self.awaiting = false;
        match outcome {
            Ok(rows) => {
                self.model.replace_all(rows);
                Commit::Applied
            },
            Err(e) => Commit::Failed(e),
        }
    }

    /// The result list model.
    pub fn model(&self) -> (r: &ResultListModel)
        ensures
            r@ == self@.rows,
    {
        &self.model
    }

    /// The current text of the search entry.
    pub fn query(&self) -> (r: &String)
        ensures
            r@ == self@.query,
    {
        &self.query
    }

    /// The generation of the newest lookup issued.
    pub fn latest_generation(&self) -> (r: u64)
        ensures
            r == self@.latest,
    {
        self.latest
    }

    /// Whether the newest lookup is still in flight.
    pub fn is_awaiting(&self) -> (r: bool)
        ensures
            r == self@.awaiting,
    {
        self.awaiting
    }
}

} // verus!
