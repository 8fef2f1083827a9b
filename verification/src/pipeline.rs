//! The record enricher: a state machine that tells its driver what to do
//! next and takes in what came of it.
//!
//! A run probes the remote catalog, loads the local catalog and then goes
//! through the records in order. The record under the cursor is unresolved
//! while its canonical name is empty, and name-resolved once it has one; the
//! records before the cursor are done with. Enrichment is best effort: a
//! record whose name cannot be resolved, or whose identifiers cannot be
//! fetched, is passed over as it is, and the run goes on with the next one.
//! Only a failed probe and a catalog that cannot be loaded abort a run. The
//! driver writes the catalog out when it is asked to persist, and at no
//! other time.

use crate::fetcher::{catalog_url, catalog_url_of, PROBE_URL};
use crate::outcome::{is_online, probe_found, EnrichmentError, LoadFailure};
use crate::record::{catalog_view, ItemRecord, RecordView};
use crate::resolver::{reference_url, reference_url_of};
use vstd::prelude::*;
use vstd::string::StringExecFns;

verus! {

/// The file that the catalog is loaded from.
pub const CATALOG_INPUT_PATH: &'static str = "files/Skins_base_file.json";

/// The file that the enriched catalog is written to, in place of what the
/// file held.
pub const CATALOG_OUTPUT_PATH: &'static str = "files/Skins.json";

/// Why a run was aborted.
#[derive(Debug, Clone, Copy, PartialEq, Eq, Structural)]
pub enum RunFailure {
    /// The connectivity probe failed.
    Connectivity,
    /// The catalog could not be loaded.
    Load(LoadFailure),
}

/// Where a run stands.
#[derive(Debug, Clone, Copy, PartialEq, Eq, Structural)]
pub enum Phase {
    /// The connectivity probe is due.
    Probing,
    /// The catalog is to be loaded.
    Loading,
    /// The record under the cursor is being enriched.
    Enriching,
    /// Every record was gone through: the catalog is to be written out.
    Finished,
    /// The run was aborted: nothing is to be written.
    Aborted(RunFailure),
}

/// What the driver is asked to do.
#[derive(Debug, PartialEq, Eq)]
pub enum Request {
    /// GET `url`, and report the status of the response.
    Probe { url: String },
    /// Load the catalog from the file at `path`.
    LoadCatalog { path: String },
    /// GET `url`, the reference page of the record at `index`, and resolve
    /// the record's canonical name from the reply.
    ResolveName { index: usize, url: String },
    /// GET `url`, the catalog query for the record at `index`, and read the
    /// identifiers off the reply.
    FetchIdentifiers { index: usize, url: String },
    /// Write the whole catalog to the file at `path`.
    Persist { path: String },
    /// Stop, and write nothing.
    Stop(RunFailure),
}

/// The mathematical value of a [`Request`].
pub enum RequestView {
    Probe { url: Seq<char> },
    LoadCatalog { path: Seq<char> },
    ResolveName { index: nat, url: Seq<char> },
    FetchIdentifiers { index: nat, url: Seq<char> },
    Persist { path: Seq<char> },
    Stop(RunFailure),
}

impl View for Request {
    type V = RequestView;

    open spec fn view(&self) -> RequestView {
        match self {
            Request::Probe { url } => RequestView::Probe { url: url@ },
            Request::LoadCatalog { path } => RequestView::LoadCatalog { path: path@ },
            Request::ResolveName { index, url } => RequestView::ResolveName {
                index: *index as nat,
                url: url@,
            },
            Request::FetchIdentifiers { index, url } => RequestView::FetchIdentifiers {
                index: *index as nat,
                url: url@,
            },
            Request::Persist { path } => RequestView::Persist { path: path@ },
            Request::Stop(failure) => RequestView::Stop(*failure),
        }
    }
}

/// What came of a request.
#[derive(Debug, PartialEq, Eq)]
pub enum Event {
    /// The probe was made: the status of the response, or `None` where no
    /// response came.
    Probed(Option<u16>),
    /// The catalog was loaded, or could not be.
    Loaded(Result<Vec<ItemRecord>, LoadFailure>),
    /// The name resolver has dealt with the reply for the record under the
    /// cursor.
    NameResolved(Result<String, EnrichmentError>),
    /// The identifier fetcher has dealt with the reply for the record under
    /// the cursor.
    IdentifiersFetched(Result<Vec<u32>, EnrichmentError>),
}

/// The state of a run.
pub struct RunState {
    pub phase: Phase,
    pub catalog: Seq<RecordView>,
    /// The index of the record that is being enriched; the records before
    /// it are done with.
    pub cursor: nat,
}

impl RunState {
    /// The states that a run can be in.
    pub open spec fn wf(self) -> bool {
        &&& self.cursor <= self.catalog.len()
        &&& self.phase is Probing || self.phase is Loading ==> self.catalog.len() == 0
        &&& self.phase is Enriching ==> self.cursor < self.catalog.len()
        &&& self.phase is Finished ==> self.cursor == self.catalog.len()
    }

    /// The record under the cursor.
    pub open spec fn current(self) -> RecordView
        recommends
            self.cursor < self.catalog.len(),
    {
        self.catalog[self.cursor as int]
    }

    /// Whether the run waits for the canonical name of the record under the
    /// cursor.
    pub open spec fn awaits_name(self) -> bool {
        self.phase is Enriching && !self.current().is_resolved()
    }

    /// Whether the run waits for the identifiers of the record under the
    /// cursor.
    pub open spec fn awaits_identifiers(self) -> bool {
        self.phase is Enriching && self.current().is_resolved()
    }
}

/// The state in which a run starts.
pub open spec fn initial() -> RunState {
    RunState { phase: Phase::Probing, catalog: Seq::empty(), cursor: 0 }
}

/// The state of a run that turns to the record at `cursor` of `catalog`: it
/// is finished where there is no such record.
pub open spec fn turned_to(catalog: Seq<RecordView>, cursor: nat) -> RunState {
    RunState {
        phase: if cursor < catalog.len() {
            Phase::Enriching
        } else {
            Phase::Finished
        },
        catalog,
        cursor,
    }
}

/// The state `s`, aborted for `failure`. The catalog stays as it is.
pub open spec fn aborted(s: RunState, failure: RunFailure) -> RunState {
    RunState { phase: Phase::Aborted(failure), ..s }
}

/// The state after the probe: the run goes on where the probe found the
/// remote catalog, which is where a status of success came back.
pub open spec fn after_probe(s: RunState, status: Option<u16>) -> RunState {
    if is_online(status) {
        RunState { phase: Phase::Loading, ..s }
    } else {
        aborted(s, RunFailure::Connectivity)
    }
}

/// The state after the catalog was loaded, or could not be.
pub open spec fn after_load(s: RunState, loaded: Result<Seq<RecordView>, LoadFailure>) -> RunState {
    match loaded {
        Ok(catalog) => turned_to(catalog, 0),
        Err(failure) => aborted(s, RunFailure::Load(failure)),
    }
}

/// The state after the name resolver has dealt with the record under the
/// cursor. A name that is not empty is taken, and the same record is up for
/// its identifiers. After a failure, and after an empty name, the record
/// stays as it is and the run turns to the next one.
pub open spec fn after_resolution(
    s: RunState,
    resolution: Result<Seq<char>, EnrichmentError>,
) -> RunState {
    match resolution {
        Ok(name) if name.len() > 0 => RunState {
            catalog: s.catalog.update(s.cursor as int, s.current().named(name)),
            ..s
        },
        _ => turned_to(s.catalog, s.cursor + 1),
    }
}

/// The state after the identifier fetcher has dealt with the record under
/// the cursor. The identifiers are put behind those that the record has;
/// after a failure the record stays as it is. Either way the run turns to
/// the next record.
pub open spec fn after_fetch(s: RunState, fetched: Result<Seq<u32>, EnrichmentError>) -> RunState {
    match fetched {
        Ok(identifiers) => turned_to(
            s.catalog.update(s.cursor as int, s.current().with_identifiers(identifiers)),
            s.cursor + 1,
        ),
        Err(_) => turned_to(s.catalog, s.cursor + 1),
    }
}

/// The state after `event`. An event that the state does not wait for
/// changes nothing.
pub open spec fn step(s: RunState, event: Event) -> RunState {
    match event {
        Event::Probed(status) => if s.phase is Probing {
            after_probe(s, status)
        } else {
            s
        },
        Event::Loaded(loaded) => if s.phase is Loading {
            after_load(
                s,
                match loaded {
                    Ok(records) => Ok(catalog_view(records@)),
                    Err(failure) => Err(failure),
                },
            )
        } else {
            s
        },
        Event::NameResolved(resolution) => if s.awaits_name() {
            after_resolution(
                s,
                match resolution {
                    Ok(name) => Ok(name@),
                    Err(failure) => Err(failure),
                },
            )
        } else {
            s
        },
        Event::IdentifiersFetched(fetched) => if s.awaits_identifiers() {
            after_fetch(
                s,
                match fetched {
                    Ok(identifiers) => Ok(identifiers@),
                    Err(failure) => Err(failure),
                },
            )
        } else {
            s
        },
    }
}

/// Whether `event` is what state `s` waits for.
pub open spec fn awaited(s: RunState, event: Event) -> bool {
    match event {
        Event::Probed(_) => s.phase is Probing,
        Event::Loaded(_) => s.phase is Loading,
        Event::NameResolved(_) => s.awaits_name(),
        Event::IdentifiersFetched(_) => s.awaits_identifiers(),
    }
}

/// A bound on the events that an enriching run still waits for: two for
/// each record from the cursor on, less one where the record under the
/// cursor has its name.
pub open spec fn work_left(s: RunState) -> nat {
    if s.phase is Enriching {
        let pending = 2 * (s.catalog.len() - s.cursor);
        if s.current().is_resolved() {
            (pending - 1) as nat
        } else {
            pending as nat
        }
    } else {
        0
    }
}

/// What the driver is asked to do in state `s`.
pub open spec fn next_request(s: RunState) -> RequestView {
    match s.phase {
        Phase::Probing => RequestView::Probe { url: PROBE_URL@ },
        Phase::Loading => RequestView::LoadCatalog { path: CATALOG_INPUT_PATH@ },
        Phase::Enriching => if s.current().is_resolved() {
            RequestView::FetchIdentifiers {
                index: s.cursor,
                url: catalog_url_of(s.current().canonical_name),
            }
        } else {
            RequestView::ResolveName {
                index: s.cursor,
                url: reference_url_of(s.current().short_name),
            }
        },
        Phase::Finished => RequestView::Persist { path: CATALOG_OUTPUT_PATH@ },
        Phase::Aborted(failure) => RequestView::Stop(failure),
    }
}

/// The state after the events of `events`, one after the other.
pub open spec fn run(s: RunState, events: Seq<Event>) -> RunState
    decreases events.len(),
{
    if events.len() == 0 {
        s
    } else {
        step(run(s, events.drop_last()), events.last())
    }
}

/// A run in progress.
pub struct Pipeline {
    phase: Phase,
    catalog: Vec<ItemRecord>,
    cursor: usize,
}

impl View for Pipeline {
    type V = RunState;

    closed spec fn view(&self) -> RunState {
        RunState {
            phase: self.phase,
            catalog: catalog_view(self.catalog@),
            cursor: self.cursor as nat,
        }
    }
}

impl Pipeline {
    #[verifier::type_invariant]
    spec fn well_formed(self) -> bool {
        self@.wf()
    }

    /// A run at its start.
    pub fn new() -> (pipeline: Pipeline)
        ensures
            pipeline@ == initial(),
            pipeline@.wf(),
    {
        let pipeline = Pipeline { phase: Phase::Probing, catalog: Vec::new(), cursor: 0 };
        assert(pipeline@.catalog =~= Seq::empty());
        pipeline
    }

    /// A run that turns to the record at `cursor` of `catalog`.
    fn turn_to(catalog: Vec<ItemRecord>, cursor: usize) -> (pipeline: Pipeline)
        requires
            cursor <= catalog.len(),
        ensures
            pipeline@ == turned_to(catalog_view(catalog@), cursor as nat),
    {
        let phase = if cursor < catalog.len() {
            Phase::Enriching
        } else {
            Phase::Finished
        };
        Pipeline { phase, catalog, cursor }
    }

    /// Where the run stands.
    pub fn phase(&self) -> (phase: Phase)
        ensures
            phase == self@.phase,
            self@.wf(),
    {
        proof {
            use_type_invariant(self);
        }
        self.phase
    }

    /// The index of the record that is being enriched.
    pub fn cursor(&self) -> (cursor: usize)
        ensures
            cursor == self@.cursor,
    {
        self.cursor
    }

    /// The catalog as it stands.
    pub fn catalog(&self) -> (catalog: &Vec<ItemRecord>)
        ensures
            catalog_view(catalog@) == self@.catalog,
    {
        &self.catalog
    }

    /// Ends the run and hands the catalog out.
    pub fn into_catalog(self) -> (catalog: Vec<ItemRecord>)
        ensures
            catalog_view(catalog@) == self@.catalog,
    {
        self.catalog
    }

    /// What the driver is asked to do.
    pub fn request(&self) -> (request: Request)
        ensures
            request@ == next_request(self@),
    {
        proof {
            use_type_invariant(self);
        }
        match self.phase {
            Phase::Probing => Request::Probe { url: String::from_str(PROBE_URL) },
            Phase::Loading => Request::LoadCatalog { path: String::from_str(CATALOG_INPUT_PATH) },
            Phase::Enriching => {
                let record = &self.catalog[self.cursor];
                if record.is_resolved() {
                    Request::FetchIdentifiers {
                        index: self.cursor,
                        url: catalog_url(record.canonical_name.as_str()),
                    }
                } else {
                    Request::ResolveName {
                        index: self.cursor,
                        url: reference_url(record.short_name.as_str()),
                    }
                }
            },
            Phase::Finished => Request::Persist { path: String::from_str(CATALOG_OUTPUT_PATH) },
            Phase::Aborted(failure) => Request::Stop(failure),
        }
    }

    /// Takes in what came of a request.
    pub fn advance(self, event: Event) -> (next: Pipeline)
        ensures
            next@ == step(self@, event),
            next@.wf(),
    {
        proof {
            use_type_invariant(&self);
        }
        let ghost before = self@;
        let Pipeline { phase, mut catalog, cursor } = self;
        match event {
            Event::Probed(status) => match phase {
                Phase::Probing => {
                    let phase = if probe_found(status) {
                        Phase::Loading
                    } else {
                        Phase::Aborted(RunFailure::Connectivity)
                    };
                    Pipeline { phase, catalog, cursor }
                },
                _ => Pipeline { phase, catalog, cursor },
            },
            Event::Loaded(loaded) => match phase {
                Phase::Loading => match loaded {
                    Ok(records) => Pipeline::turn_to(records, 0),
                    Err(failure) => Pipeline {
                        phase: Phase::Aborted(RunFailure::Load(failure)),
                        catalog,
                        cursor,
                    },
                },
                _ => Pipeline { phase, catalog, cursor },
            },
            Event::NameResolved(resolution) => {
                let waiting = match phase {
                    Phase::Enriching => !catalog[cursor].is_resolved(),
                    _ => false,
                };
                if !waiting {
                    return Pipeline { phase, catalog, cursor };
                }
                assert(cursor < catalog.len());
                match resolution {
                    Ok(name) => {
                        if name.as_str().is_empty() {
                            Pipeline::turn_to(catalog, cursor + 1)
                        } else {
                            catalog[cursor].resolve(name);
                            assert(catalog_view(catalog@) =~= before.catalog.update(
                                cursor as int,
                                before.current().named(name@),
                            ));
                            Pipeline { phase, catalog, cursor }
                        }
                    },
                    Err(_) => Pipeline::turn_to(catalog, cursor + 1),
                }
            },
            Event::IdentifiersFetched(fetched) => {
                let waiting = match phase {
                    Phase::Enriching => catalog[cursor].is_resolved(),
                    _ => false,
                };
                if !waiting {
                    return Pipeline { phase, catalog, cursor };
                }
                assert(cursor < catalog.len());
                match fetched {
                    Ok(identifiers) => {
                        catalog[cursor].append_identifiers(identifiers);
                        assert(catalog_view(catalog@) =~= before.catalog.update(
                            cursor as int,
                            before.current().with_identifiers(identifiers@),
                        ));
                        Pipeline::turn_to(catalog, cursor + 1)
                    },
                    Err(_) => Pipeline::turn_to(catalog, cursor + 1),
                }
            },
        }
    }
}

} // verus!
