//! What holds of every run, whatever the driver reports, and of every
//! answer of the catalog.

use crate::fetcher::{answer_items, answer_of};
use crate::json::JsonTree;
use crate::outcome::{is_online, EnrichmentError};
use crate::pipeline::{
    awaited, initial, next_request, run, step, turned_to, work_left, Event, Phase, RequestView,
    RunFailure, RunState,
};
use crate::record::{catalog_view, ItemRecord, RecordView};
use vstd::prelude::*;

verus! {

/// Whether the driver is asked, in state `s`, to resolve the canonical name
/// of the record at `index`.
pub open spec fn asks_resolution_of(s: RunState, index: int) -> bool {
    next_request(s) matches RequestView::ResolveName { index: asked, .. } && asked == index
}

/// Whether the driver is asked, in state `s`, to write the catalog out.
pub open spec fn asks_to_persist(s: RunState) -> bool {
    next_request(s) is Persist
}

/// The events with which a run gets to its first record: the probe finds
/// the remote catalog, and `records` is what was loaded.
pub open spec fn startup(records: Vec<ItemRecord>) -> Seq<Event> {
    seq![Event::Probed(Some(200u16)), Event::Loaded(Ok(records))]
}

/// The events of one pass in which every fetch succeeds: for the record at
/// each index the identifiers at that index of `fetched`.
pub open spec fn fetches(fetched: Seq<Vec<u32>>) -> Seq<Event> {
    Seq::new(fetched.len(), |i: int| Event::IdentifiersFetched(Ok(fetched[i])))
}

/// The state at the end of a run that gets to its first record, over
/// `records`, and in which every fetch then succeeds with the identifiers of
/// `fetched`.
pub open spec fn run_with_fetches(records: Vec<ItemRecord>, fetched: Seq<Vec<u32>>) -> RunState {
    run(initial(), startup(records) + fetches(fetched))
}

/// The catalog whose first `count` records have the identifiers of
/// `fetched` behind their own.
pub open spec fn extended(catalog: Seq<RecordView>, fetched: Seq<Vec<u32>>, count: int) -> Seq<
    RecordView,
> {
    Seq::new(
        catalog.len(),
        |i: int|
            if i < count {
                catalog[i].with_identifiers(fetched[i]@)
            } else {
                catalog[i]
            },
    )
}

/// What one event leaves as it is.
pub proof fn lemma_step_keeps(s: RunState, event: Event, i: int)
    requires
        s.wf(),
        0 <= i < s.catalog.len(),
    ensures
        step(s, event).wf(),
        step(s, event).catalog.len() == s.catalog.len(),
        step(s, event).cursor >= s.cursor,
        step(s, event).catalog[i].short_name == s.catalog[i].short_name,
        s.catalog[i].identifiers.is_prefix_of(step(s, event).catalog[i].identifiers),
        s.catalog[i].is_resolved() ==> step(s, event).catalog[i].canonical_name
            == s.catalog[i].canonical_name,
        i < s.cursor ==> step(s, event).catalog[i] == s.catalog[i],
{
}

/// Every state of a run is one that a run can be in.
pub proof fn lemma_run_wf(s: RunState, events: Seq<Event>)
    requires
        s.wf(),
    ensures
        run(s, events).wf(),
    decreases events.len(),
{
    if events.len() > 0 {
        lemma_run_wf(s, events.drop_last());
    }
}

/// What a run leaves as it is.
pub proof fn lemma_run_keeps(s: RunState, events: Seq<Event>, i: int)
    requires
        s.wf(),
        0 <= i < s.catalog.len(),
    ensures
        run(s, events).wf(),
        run(s, events).catalog.len() == s.catalog.len(),
        run(s, events).cursor >= s.cursor,
        run(s, events).catalog[i].short_name == s.catalog[i].short_name,
        s.catalog[i].identifiers.is_prefix_of(run(s, events).catalog[i].identifiers),
        s.catalog[i].is_resolved() ==> run(s, events).catalog[i].canonical_name
            == s.catalog[i].canonical_name,
        i < s.cursor ==> run(s, events).catalog[i] == s.catalog[i],
    decreases events.len(),
{
    if events.len() > 0 {
        lemma_run_keeps(s, events.drop_last(), i);
        lemma_step_keeps(run(s, events.drop_last()), events.last(), i);
    }
}

/// A run of one event is one step.
pub proof fn lemma_run_of_one(s: RunState, event: Event)
    ensures
        run(s, seq![event]) == step(s, event),
{
    let events = seq![event];
    assert(run(s, events.drop_last()) == s);
}

/// A run in two parts is the run of the second part from where the first
/// part ends.
pub proof fn lemma_run_in_parts(s: RunState, first: Seq<Event>, second: Seq<Event>)
    ensures
        run(s, first + second) == run(run(s, first), second),
    decreases second.len(),
{
    if second.len() > 0 {
        lemma_run_in_parts(s, first, second.drop_last());
        assert((first + second).drop_last() =~= first + second.drop_last());
    }
}

/// The probe finds the remote catalog and the catalog is loaded: the run
/// turns to the first record.
pub proof fn lemma_startup(records: Vec<ItemRecord>)
    ensures
        run(initial(), startup(records)) == turned_to(catalog_view(records@), 0),
{
    let events = startup(records);
    assert(events.drop_last() =~= seq![Event::Probed(Some(200u16))]);
    lemma_run_of_one(initial(), Event::Probed(Some(200u16)));
}

/// An aborted run stays aborted, and its catalog stays as it was.
pub proof fn law_abort_is_final(s: RunState, events: Seq<Event>)
    requires
        s.phase is Aborted,
    ensures
        run(s, events) == s,
    decreases events.len(),
{
    if events.len() > 0 {
        law_abort_is_final(s, events.drop_last());
    }
}

/// A probe finds the remote catalog exactly where a status from 200 to 299
/// comes back: only then is the catalog loaded, and any other answer, and
/// none at all, aborts the run.
pub proof fn law_probe_goes_by_the_status(status: Option<u16>)
    ensures
        step(initial(), Event::Probed(status)).phase == (if status matches Some(code) && 200
            <= code <= 299 {
            Phase::Loading
        } else {
            Phase::Aborted(RunFailure::Connectivity)
        }),
{
}

/// A finished run stays finished, and its catalog stays as it was: what is
/// written out is what the run ended with.
pub proof fn law_finished_run_is_final(s: RunState, events: Seq<Event>)
    requires
        s.phase is Finished,
    ensures
        run(s, events) == s,
    decreases events.len(),
{
    if events.len() > 0 {
        law_finished_run_is_final(s, events.drop_last());
    }
}

/// The name resolver is spared what is known: a record that has a canonical
/// name keeps that name through every run, and at no point of the run is the
/// driver asked to resolve it. This holds from every state, so also from the
/// one in which the catalog has just been loaded.
pub proof fn law_named_record_is_never_resolved(s: RunState, events: Seq<Event>, i: int)
    requires
        s.wf(),
        0 <= i < s.catalog.len(),
        s.catalog[i].is_resolved(),
    ensures
        run(s, events).catalog[i].canonical_name == s.catalog[i].canonical_name,
        forall|k: int|
            0 <= k <= events.len() ==> !asks_resolution_of(#[trigger] run(s, events.take(k)), i),
{
    lemma_run_keeps(s, events, i);
    assert forall|k: int| 0 <= k <= events.len() implies !asks_resolution_of(
        #[trigger] run(s, events.take(k)),
        i,
    ) by {
        lemma_run_keeps(s, events.take(k), i);
    }
}

/// The canonical name of a record is attempted at most once: once the
/// driver has reported on the resolution that it was asked for, it is never
/// asked to resolve that record again.
pub proof fn law_resolution_is_attempted_once(
    s: RunState,
    i: int,
    resolution: Result<String, EnrichmentError>,
    events: Seq<Event>,
)
    requires
        s.wf(),
        asks_resolution_of(s, i),
    ensures
        !asks_resolution_of(run(step(s, Event::NameResolved(resolution)), events), i),
{
    lemma_step_keeps(s, Event::NameResolved(resolution), i);
    lemma_run_keeps(step(s, Event::NameResolved(resolution)), events, i);
}

/// Identifiers are only ever appended, and the catalog keeps its shape:
/// through every run the catalog has the same number of records under the
/// same short names in the same order, and what a record held of identifiers
/// at the start stands at the beginning of what it holds at the end.
pub proof fn law_identifiers_only_grow(s: RunState, events: Seq<Event>, i: int)
    requires
        s.wf(),
        0 <= i < s.catalog.len(),
    ensures
        run(s, events).catalog.len() == s.catalog.len(),
        run(s, events).catalog[i].short_name == s.catalog[i].short_name,
        s.catalog[i].identifiers.is_prefix_of(run(s, events).catalog[i].identifiers),
{
    lemma_run_keeps(s, events, i);
}

/// A failed resolution is the failure of one record: the catalog stays as
/// it is, the run is not aborted, and it turns to the next record.
pub proof fn law_failed_resolution_passes_over(s: RunState, failure: EnrichmentError)
    requires
        s.wf(),
        s.awaits_name(),
    ensures
        step(s, Event::NameResolved(Err(failure))) == turned_to(s.catalog, s.cursor + 1),
        !(step(s, Event::NameResolved(Err(failure))).phase is Aborted),
{
}

/// A failed fetch is the failure of one record too: the catalog stays as it
/// is, the run is not aborted, and it turns to the next record.
pub proof fn law_failed_fetch_passes_over(s: RunState, failure: EnrichmentError)
    requires
        s.wf(),
        s.awaits_identifiers(),
    ensures
        step(s, Event::IdentifiersFetched(Err(failure))) == turned_to(s.catalog, s.cursor + 1),
        !(step(s, Event::IdentifiersFetched(Err(failure))).phase is Aborted),
{
}

/// An answer of the catalog without items names no identifier and has no
/// malformed address.
pub proof fn law_answer_without_items_is_empty(document: JsonTree)
    requires
        answer_items(document).len() == 0,
    ensures
        answer_of(document).identifiers.len() == 0,
        answer_of(document).malformed.len() == 0,
{
}

/// A fetch that brings no identifiers leaves every record as it is.
pub proof fn law_empty_fetch_changes_no_record(s: RunState, fetched: Vec<u32>)
    requires
        s.wf(),
        s.awaits_identifiers(),
        fetched@.len() == 0,
    ensures
        step(s, Event::IdentifiersFetched(Ok(fetched))) == turned_to(s.catalog, s.cursor + 1),
{
    assert(s.current().identifiers + fetched@ =~= s.current().identifiers);
    assert(s.catalog.update(s.cursor as int, s.current().with_identifiers(fetched@))
        =~= s.catalog);
}

/// Once the catalog is loaded, nothing aborts the run: whatever the driver
/// reports of the records, the run is enriching or finished.
pub proof fn law_loaded_run_is_never_aborted(s: RunState, events: Seq<Event>)
    requires
        s.wf(),
        s.phase is Enriching || s.phase is Finished,
    ensures
        run(s, events).phase is Enriching || run(s, events).phase is Finished,
    decreases events.len(),
{
    if events.len() > 0 {
        law_loaded_run_is_never_aborted(s, events.drop_last());
        lemma_run_wf(s, events.drop_last());
    }
}

/// An event that the run does not wait for changes nothing.
pub proof fn law_unawaited_event_changes_nothing(s: RunState, event: Event)
    requires
        !awaited(s, event),
    ensures
        step(s, event) == s,
{
}

/// Every event that an enriching run waits for brings it nearer to its end:
/// a driver that reports on what it is asked for gets to persist after no
/// more than two reports for each record.
pub proof fn law_awaited_event_makes_progress(s: RunState, event: Event)
    requires
        s.wf(),
        s.phase is Enriching,
        awaited(s, event),
    ensures
        work_left(step(s, event)) < work_left(s),
        work_left(s) <= 2 * s.catalog.len(),
        work_left(step(s, event)) == 0 ==> asks_to_persist(step(s, event)),
{
}

/// After a failed probe nothing is written. A probe fails where no response
/// comes and where the status is none of success. Whatever the driver
/// reports from then on, the run stays aborted for want of connectivity, its
/// catalog is empty, and at no point, before the probe or after it, is the
/// driver asked to persist.
pub proof fn law_failed_probe_never_persists(status: Option<u16>, events: Seq<Event>)
    requires
        !is_online(status),
    ensures
        run(initial(), seq![Event::Probed(status)] + events) == (RunState {
            phase: Phase::Aborted(RunFailure::Connectivity),
            catalog: Seq::empty(),
            cursor: 0,
        }),
        forall|k: int|
            0 <= k <= events.len() + 1 ==> !asks_to_persist(
                #[trigger] run(
                    initial(),
                    (seq![Event::Probed(status)] + events).take(k),
                ),
            ),
{
    let probe = seq![Event::Probed(status)];
    let offline = step(initial(), Event::Probed(status));
    lemma_run_of_one(initial(), Event::Probed(status));
    lemma_run_in_parts(initial(), probe, events);
    law_abort_is_final(offline, events);
    assert forall|k: int| 0 <= k <= events.len() + 1 implies !asks_to_persist(
        #[trigger] run(initial(), (probe + events).take(k)),
    ) by {
        if k == 0 {
            assert((probe + events).take(0) =~= Seq::<Event>::empty());
        } else {
            assert((probe + events).take(k) =~= probe + events.take(k - 1));
            lemma_run_in_parts(initial(), probe, events.take(k - 1));
            law_abort_is_final(offline, events.take(k - 1));
        }
    }
}

/// A pass over a catalog whose records all have their canonical names, in
/// which every fetch succeeds: after the fetches for the first `count`
/// records those records have what was fetched behind their identifiers,
/// and the run has turned to the record at `count`.
pub proof fn lemma_pass(catalog: Seq<RecordView>, fetched: Seq<Vec<u32>>, count: int)
    requires
        fetched.len() == catalog.len(),
        forall|i: int| 0 <= i < catalog.len() ==> (#[trigger] catalog[i]).is_resolved(),
        0 <= count <= catalog.len(),
    ensures
        run(turned_to(catalog, 0), fetches(fetched).take(count)) == turned_to(
            extended(catalog, fetched, count),
            count as nat,
        ),
    decreases count,
{
    let events = fetches(fetched).take(count);
    if count == 0 {
        assert(extended(catalog, fetched, 0) =~= catalog);
    } else {
        lemma_pass(catalog, fetched, count - 1);
        assert(events.drop_last() =~= fetches(fetched).take(count - 1));
        let r = turned_to(extended(catalog, fetched, count - 1), (count - 1) as nat);
        assert(r.catalog.update(
            count - 1,
            r.current().with_identifiers(fetched[count - 1]@),
        ) =~= extended(catalog, fetched, count));
    }
}

/// Enrichment is not idempotent on identifiers. Where every record has its
/// canonical name and every fetch succeeds, a run puts what was fetched
/// behind the identifiers of each record; a second run on the catalog that
/// the first one left, with the same fetches, puts it there once more. In
/// neither run is the driver asked to resolve a name, and the names stay.
pub proof fn law_second_run_appends_again(
    records: Vec<ItemRecord>,
    persisted: Vec<ItemRecord>,
    fetched: Seq<Vec<u32>>,
)
    requires
        fetched.len() == records@.len(),
        forall|i: int| 0 <= i < records@.len() ==> (#[trigger] records@[i])@.is_resolved(),
        catalog_view(persisted@) == run_with_fetches(records, fetched).catalog,
    ensures
        run_with_fetches(records, fetched).phase is Finished,
        run_with_fetches(persisted, fetched).phase is Finished,
        run_with_fetches(records, fetched).catalog.len() == records@.len(),
        run_with_fetches(persisted, fetched).catalog.len() == records@.len(),
        forall|i: int|
            0 <= i < records@.len() ==> (#[trigger] run_with_fetches(
                records,
                fetched,
            ).catalog[i]).identifiers == records@[i]@.identifiers + fetched[i]@,
        forall|i: int|
            0 <= i < records@.len() ==> (#[trigger] run_with_fetches(
                persisted,
                fetched,
            ).catalog[i]) == (RecordView {
                identifiers: records@[i]@.identifiers + fetched[i]@ + fetched[i]@,
                ..records@[i]@
            }),
        forall|k: int|
            0 <= k <= fetched.len() + 2 ==> !(next_request(
                #[trigger] run(initial(), (startup(persisted) + fetches(fetched)).take(k)),
            ) is ResolveName),
{
    let catalog = catalog_view(records@);
    let n = catalog.len() as int;
    assert(fetches(fetched).take(n) =~= fetches(fetched));

    lemma_startup(records);
    lemma_run_in_parts(initial(), startup(records), fetches(fetched));
    lemma_pass(catalog, fetched, n);
    let once = extended(catalog, fetched, n);

    lemma_startup(persisted);
    lemma_run_in_parts(initial(), startup(persisted), fetches(fetched));
    lemma_pass(once, fetched, n);

    let events = startup(persisted) + fetches(fetched);
    assert forall|k: int| 0 <= k <= fetched.len() + 2 implies !(next_request(
        #[trigger] run(initial(), events.take(k)),
    ) is ResolveName) by {
        if k == 0 {
            assert(events.take(0) =~= Seq::<Event>::empty());
        } else if k == 1 {
            let probe = seq![Event::Probed(Some(200u16))];
            assert(events.take(1) =~= probe);
            lemma_run_of_one(initial(), Event::Probed(Some(200u16)));
        } else {
            assert(events.take(k) =~= startup(persisted) + fetches(fetched).take(k - 2));
            lemma_run_in_parts(initial(), startup(persisted), fetches(fetched).take(k - 2));
            lemma_pass(once, fetched, k - 2);
            let reached = turned_to(extended(once, fetched, k - 2), (k - 2) as nat);
            if k - 2 < n {
                assert(reached.current() == once[k - 2]);
            }
        }
    }
}

} // verus!
