use skin_id_finder::fetcher::fetch_identifiers;
use skin_id_finder::outcome::{EnrichmentError, HttpReply, LoadFailure};
use skin_id_finder::pipeline::{Event, Phase, Pipeline, Request, RunFailure};
use skin_id_finder::record::ItemRecord;
use skin_id_finder::resolver::resolve_name;

fn entry(short_name: &str, identifiers: Vec<u32>, canonical_name: &str) -> ItemRecord {
    ItemRecord {
        short_name: short_name.to_string(),
        identifiers,
        canonical_name: canonical_name.to_string(),
    }
}

fn started(records: Vec<ItemRecord>) -> Pipeline {
    Pipeline::new()
        .advance(Event::Probed(Some(200)))
        .advance(Event::Loaded(Ok(records)))
}

fn resolve_request(index: usize, short_name: &str) -> Request {
    Request::ResolveName {
        index,
        url: format!("https://wiki.facepunch.com/rust/item/{}", short_name),
    }
}

fn fetch_request(index: usize, canonical_name: &str) -> Request {
    Request::FetchIdentifiers {
        index,
        url: format!("https://rust.scmm.app/api/item?type={}&count=5000", canonical_name),
    }
}

fn load_request() -> Request {
    Request::LoadCatalog { path: "files/Skins_base_file.json".to_string() }
}

fn persist_request() -> Request {
    Request::Persist { path: "files/Skins.json".to_string() }
}

fn fetch_event(reply: &HttpReply) -> Event {
    Event::IdentifiersFetched(fetch_identifiers(reply).map(|answer| answer.identifiers))
}

fn fetched(identifiers: Vec<u32>) -> Event {
    Event::IdentifiersFetched(Ok(identifiers))
}

fn named(name: &str) -> Event {
    Event::NameResolved(Ok(name.to_string()))
}

#[test]
fn a_run_starts_with_the_probe() {
    let run = Pipeline::new();
    assert_eq!(run.phase(), Phase::Probing);
    assert_eq!(run.cursor(), 0);
    assert!(run.catalog().is_empty());
    assert_eq!(run.request(), Request::Probe { url: "https://rust.scmm.app".to_string() });
}

#[test]
fn a_successful_probe_leads_to_loading() {
    let run = Pipeline::new().advance(Event::Probed(Some(200)));
    assert_eq!(run.phase(), Phase::Loading);
    assert_eq!(run.request(), load_request());
}

#[test]
fn a_failed_probe_aborts_the_run_and_nothing_is_persisted() {
    let mut run = Pipeline::new().advance(Event::Probed(None));
    assert_eq!(run.phase(), Phase::Aborted(RunFailure::Connectivity));
    assert_eq!(run.request(), Request::Stop(RunFailure::Connectivity));
    let later = vec![
        Event::Probed(Some(200)),
        Event::Loaded(Ok(vec![entry("rifle.ak", vec![1], "Assault Rifle")])),
        named("Assault Rifle"),
        fetched(vec![2, 3]),
        Event::Loaded(Err(LoadFailure::Io)),
    ];
    for event in later {
        run = run.advance(event);
        assert_eq!(run.request(), Request::Stop(RunFailure::Connectivity));
        assert_ne!(run.request(), persist_request());
        assert!(run.catalog().is_empty());
    }
}

#[test]
fn a_catalog_that_cannot_be_loaded_aborts_the_run() {
    let unreadable = Pipeline::new()
        .advance(Event::Probed(Some(200)))
        .advance(Event::Loaded(Err(LoadFailure::Io)));
    assert_eq!(unreadable.request(), Request::Stop(RunFailure::Load(LoadFailure::Io)));
    let misshapen = Pipeline::new()
        .advance(Event::Probed(Some(200)))
        .advance(Event::Loaded(Err(LoadFailure::Format)));
    assert_eq!(misshapen.phase(), Phase::Aborted(RunFailure::Load(LoadFailure::Format)));
    assert_eq!(misshapen.request(), Request::Stop(RunFailure::Load(LoadFailure::Format)));
}

#[test]
fn an_empty_catalog_is_persisted_at_once() {
    let run = started(vec![]);
    assert_eq!(run.phase(), Phase::Finished);
    assert_eq!(run.request(), persist_request());
    assert_eq!(run.into_catalog(), vec![]);
}

#[test]
fn an_unresolved_record_is_resolved_and_then_fetched() {
    let run = started(vec![entry("rifle.ak", vec![7], "")]);
    assert_eq!(run.phase(), Phase::Enriching);
    assert_eq!(run.request(), resolve_request(0, "rifle.ak"));

    let run = run.advance(named("Assault Rifle"));
    assert_eq!(run.cursor(), 0);
    assert_eq!(run.catalog(), &vec![entry("rifle.ak", vec![7], "Assault Rifle")]);
    assert_eq!(run.request(), fetch_request(0, "Assault Rifle"));

    let run = run.advance(fetched(vec![12345, 9]));
    assert_eq!(run.phase(), Phase::Finished);
    assert_eq!(run.cursor(), 1);
    assert_eq!(run.request(), persist_request());
    assert_eq!(run.into_catalog(), vec![entry("rifle.ak", vec![7, 12345, 9], "Assault Rifle")]);
}

#[test]
fn a_named_record_is_never_sent_to_the_resolver() {
    let mut run = started(vec![
        entry("rifle.ak", vec![], "Assault Rifle"),
        entry("hatchet", vec![1], "Hatchet"),
        entry("pickaxe", vec![], "Pickaxe"),
    ]);
    let names = ["Assault Rifle", "Hatchet", "Pickaxe"];
    for (index, name) in names.iter().enumerate() {
        assert_eq!(run.request(), fetch_request(index, name));
        run = run.advance(named("Other Name"));
        assert_eq!(run.request(), fetch_request(index, name));
        run = run.advance(Event::NameResolved(Err(EnrichmentError::Network)));
        assert_eq!(run.request(), fetch_request(index, name));
        run = run.advance(fetched(vec![index as u32]));
    }
    assert_eq!(run.request(), persist_request());
    assert_eq!(
        run.into_catalog(),
        vec![
            entry("rifle.ak", vec![0], "Assault Rifle"),
            entry("hatchet", vec![1, 1], "Hatchet"),
            entry("pickaxe", vec![2], "Pickaxe"),
        ]
    );
}

#[test]
fn identifiers_are_appended_and_never_removed() {
    let before = vec![
        entry("rifle.ak", vec![5, 5, 1], "Assault Rifle"),
        entry("hatchet", vec![], ""),
        entry("pickaxe", vec![9], ""),
    ];
    let run = started(before.clone())
        .advance(fetched(vec![1, 5]))
        .advance(named("Hatchet"))
        .advance(fetched(vec![]))
        .advance(Event::NameResolved(Err(EnrichmentError::StructureNotFound)));
    assert_eq!(run.request(), persist_request());
    let after = run.into_catalog();
    assert_eq!(after.len(), before.len());
    for (old, new) in before.iter().zip(after.iter()) {
        assert_eq!(new.short_name, old.short_name);
        assert!(new.identifiers.starts_with(&old.identifiers));
    }
    assert_eq!(
        after,
        vec![
            entry("rifle.ak", vec![5, 5, 1, 1, 5], "Assault Rifle"),
            entry("hatchet", vec![], "Hatchet"),
            entry("pickaxe", vec![9], ""),
        ]
    );
}

#[test]
fn a_second_run_appends_the_identifiers_again() {
    let catalog = vec![
        entry("rifle.ak", vec![1], "Assault Rifle"),
        entry("hatchet", vec![], "Hatchet"),
    ];
    let first = started(catalog)
        .advance(fetched(vec![10, 11]))
        .advance(fetched(vec![20]));
    assert_eq!(first.request(), persist_request());
    let persisted = first.into_catalog();
    assert_eq!(
        persisted,
        vec![
            entry("rifle.ak", vec![1, 10, 11], "Assault Rifle"),
            entry("hatchet", vec![20], "Hatchet"),
        ]
    );

    let mut second = started(persisted);
    assert_eq!(second.request(), fetch_request(0, "Assault Rifle"));
    second = second.advance(fetched(vec![10, 11]));
    assert_eq!(second.request(), fetch_request(1, "Hatchet"));
    second = second.advance(fetched(vec![20]));
    assert_eq!(second.request(), persist_request());
    assert_eq!(
        second.into_catalog(),
        vec![
            entry("rifle.ak", vec![1, 10, 11, 10, 11], "Assault Rifle"),
            entry("hatchet", vec![20, 20], "Hatchet"),
        ]
    );
}

#[test]
fn a_failed_resolution_passes_over_that_record_only() {
    let run = started(vec![
        entry("dlc.item", vec![3, 4], ""),
        entry("hatchet", vec![], ""),
    ]);
    assert_eq!(run.request(), resolve_request(0, "dlc.item"));
    let page = HttpReply::Body(
        "<html><body><div class=\"pagetitle\"><a href=\"/rust\">Rust</a></div></body></html>"
            .to_string(),
    );
    let resolution = resolve_name(&page);
    assert_eq!(resolution, Err(EnrichmentError::StructureNotFound));

    let run = run.advance(Event::NameResolved(resolution));
    assert_eq!(run.phase(), Phase::Enriching);
    assert_eq!(run.cursor(), 1);
    assert_eq!(run.catalog()[0], entry("dlc.item", vec![3, 4], ""));
    assert_eq!(run.request(), resolve_request(1, "hatchet"));

    let page = HttpReply::Body(
        "<html><body><div class=\"pagetitle\"><a href=\"/rust\">Rust</a><a href=\"/rust/item/hatchet\">Hatchet</a></div></body></html>"
            .to_string(),
    );
    let run = run.advance(Event::NameResolved(resolve_name(&page)));
    assert_eq!(run.request(), fetch_request(1, "Hatchet"));
    let answer = HttpReply::Body(
        "{\"items\":[{\"actions\":[{},{\"url\":\"https://steamcommunity.com/sharedfiles/filedetails/?id=44\"}]}]}"
            .to_string(),
    );
    let run = run.advance(fetch_event(&answer));
    assert_eq!(run.request(), persist_request());
    assert_eq!(
        run.into_catalog(),
        vec![entry("dlc.item", vec![3, 4], ""), entry("hatchet", vec![44], "Hatchet")]
    );
}

#[test]
fn a_network_failure_of_the_resolver_passes_over_the_record_too() {
    let run = started(vec![entry("a", vec![1], ""), entry("b", vec![2], "B")])
        .advance(Event::NameResolved(resolve_name(&HttpReply::Failed)));
    assert_eq!(run.cursor(), 1);
    assert_eq!(run.catalog()[0], entry("a", vec![1], ""));
    assert_eq!(run.request(), fetch_request(1, "B"));
    let run = started(vec![entry("a", vec![1], "")])
        .advance(Event::NameResolved(resolve_name(&HttpReply::Rejected)));
    assert_eq!(run.request(), persist_request());
    assert_eq!(run.into_catalog(), vec![entry("a", vec![1], "")]);
}

#[test]
fn an_empty_resolved_name_leaves_the_record_unresolved() {
    let run = started(vec![entry("a", vec![1], ""), entry("b", vec![], "")]).advance(named(""));
    assert_eq!(run.cursor(), 1);
    assert_eq!(run.catalog()[0], entry("a", vec![1], ""));
    assert_eq!(run.request(), resolve_request(1, "b"));
}

#[test]
fn an_answer_with_zero_items_leaves_the_identifiers_as_they_are() {
    let answer = HttpReply::Body("{\"items\":[]}".to_string());
    let run = started(vec![entry("rifle.ak", vec![8, 3], "Assault Rifle")])
        .advance(fetch_event(&answer));
    assert_eq!(run.request(), persist_request());
    assert_eq!(run.into_catalog(), vec![entry("rifle.ak", vec![8, 3], "Assault Rifle")]);
}

#[test]
fn a_refused_catalog_query_leaves_the_identifiers_as_they_are() {
    let run = started(vec![entry("rifle.ak", vec![8], "Assault Rifle"), entry("b", vec![], "B")])
        .advance(fetch_event(&HttpReply::Rejected));
    assert_eq!(run.phase(), Phase::Enriching);
    assert_eq!(run.catalog()[0], entry("rifle.ak", vec![8], "Assault Rifle"));
    assert_eq!(run.request(), fetch_request(1, "B"));
}

#[test]
fn a_failed_fetch_passes_over_that_record_only() {
    let run = started(vec![
        entry("a", vec![1], "A"),
        entry("b", vec![2], "B"),
        entry("c", vec![3], "C"),
    ])
    .advance(fetched(vec![10]));
    assert_eq!(fetch_identifiers(&HttpReply::Failed), Err(EnrichmentError::Network));
    let run = run.advance(fetch_event(&HttpReply::Failed));
    assert_eq!(run.phase(), Phase::Enriching);
    assert_eq!(run.cursor(), 2);
    assert_eq!(
        run.catalog(),
        &vec![entry("a", vec![1, 10], "A"), entry("b", vec![2], "B"), entry("c", vec![3], "C")]
    );
    assert_eq!(run.request(), fetch_request(2, "C"));
    let run = run.advance(fetched(vec![30]));
    assert_eq!(run.request(), persist_request());
    assert_eq!(
        run.into_catalog(),
        vec![entry("a", vec![1, 10], "A"), entry("b", vec![2], "B"), entry("c", vec![3, 30], "C")]
    );
}

#[test]
fn a_malformed_answer_passes_over_that_record_only() {
    let answer = HttpReply::Body("<html>gateway timeout</html>".to_string());
    assert_eq!(fetch_identifiers(&answer), Err(EnrichmentError::MalformedAnswer));
    let run = started(vec![entry("a", vec![1], ""), entry("b", vec![], "B")])
        .advance(named("A"))
        .advance(fetch_event(&answer));
    assert_eq!(run.cursor(), 1);
    assert_eq!(run.catalog()[0], entry("a", vec![1], "A"));
    assert_eq!(run.request(), fetch_request(1, "B"));
}

#[test]
fn a_loaded_run_gets_to_persist_whatever_fails() {
    let mut run = started(vec![
        entry("a", vec![1], ""),
        entry("b", vec![2], "B"),
        entry("c", vec![3], ""),
    ]);
    let mut reports = 0;
    loop {
        let event = match run.request() {
            Request::ResolveName { .. } => Event::NameResolved(Err(EnrichmentError::Network)),
            Request::FetchIdentifiers { .. } => {
                Event::IdentifiersFetched(Err(EnrichmentError::MalformedAnswer))
            }
            Request::Persist { .. } => break,
            other => panic!("unexpected request {:?}", other),
        };
        run = run.advance(event);
        reports += 1;
        assert!(reports <= 6);
    }
    assert_eq!(reports, 3);
    assert_eq!(
        run.into_catalog(),
        vec![entry("a", vec![1], ""), entry("b", vec![2], "B"), entry("c", vec![3], "")]
    );
}

#[test]
fn an_event_that_is_not_waited_for_changes_nothing() {
    let run = Pipeline::new()
        .advance(Event::Loaded(Ok(vec![entry("a", vec![], "A")])))
        .advance(fetched(vec![1]))
        .advance(named("A"));
    assert_eq!(run.phase(), Phase::Probing);
    assert!(run.catalog().is_empty());

    let run = run
        .advance(Event::Probed(Some(200)))
        .advance(Event::Probed(None))
        .advance(fetched(vec![1]));
    assert_eq!(run.phase(), Phase::Loading);
    assert!(run.catalog().is_empty());

    let run = run
        .advance(Event::Loaded(Ok(vec![entry("a", vec![], "")])))
        .advance(Event::Loaded(Ok(vec![])))
        .advance(Event::Loaded(Err(LoadFailure::Io)))
        .advance(Event::Probed(None))
        .advance(fetched(vec![1]));
    assert_eq!(run.request(), resolve_request(0, "a"));
    assert_eq!(run.catalog(), &vec![entry("a", vec![], "")]);

    let run = run.advance(named("A")).advance(fetched(vec![2]));
    assert_eq!(run.request(), persist_request());
    let run = run
        .advance(fetched(vec![3]))
        .advance(named("B"))
        .advance(Event::Probed(None))
        .advance(Event::Loaded(Ok(vec![])));
    assert_eq!(run.phase(), Phase::Finished);
    assert_eq!(run.into_catalog(), vec![entry("a", vec![2], "A")]);
}

#[test]
fn a_name_is_asked_for_once() {
    let mut run = started(vec![entry("a", vec![], ""), entry("b", vec![], "")]);
    let mut asked = vec![0usize, 0usize];
    let replies = vec![
        Event::NameResolved(Err(EnrichmentError::Network)),
        named("B"),
        fetched(vec![1]),
    ];
    for event in replies {
        if let Request::ResolveName { index, .. } = run.request() {
            asked[index] += 1;
        }
        run = run.advance(event);
    }
    assert_eq!(run.request(), persist_request());
    assert_eq!(asked, vec![1, 1]);
}

#[test]
fn a_finished_run_changes_no_more() {
    let mut run = started(vec![entry("a", vec![1], "A")]).advance(fetched(vec![2]));
    assert_eq!(run.phase(), Phase::Finished);
    let later = vec![
        fetched(vec![3]),
        named("B"),
        Event::Probed(None),
        Event::Loaded(Ok(vec![entry("z", vec![], "")])),
        Event::Loaded(Err(LoadFailure::Format)),
        Event::NameResolved(Err(EnrichmentError::StructureNotFound)),
        Event::IdentifiersFetched(Err(EnrichmentError::Network)),
    ];
    for event in later {
        run = run.advance(event);
        assert_eq!(run.request(), persist_request());
        assert_eq!(run.cursor(), 1);
        assert_eq!(run.catalog(), &vec![entry("a", vec![1, 2], "A")]);
    }
}

#[test]
fn the_probe_goes_by_the_status() {
    for status in [200u16, 201, 204, 299] {
        let run = Pipeline::new().advance(Event::Probed(Some(status)));
        assert_eq!(run.phase(), Phase::Loading, "status {}", status);
        assert_eq!(run.request(), load_request());
    }
    for status in [0u16, 100, 199, 300, 301, 404, 500, 503, 999, u16::MAX] {
        let run = Pipeline::new().advance(Event::Probed(Some(status)));
        assert_eq!(run.phase(), Phase::Aborted(RunFailure::Connectivity), "status {}", status);
        assert_eq!(run.request(), Request::Stop(RunFailure::Connectivity));
    }
    let run = Pipeline::new().advance(Event::Probed(None));
    assert_eq!(run.request(), Request::Stop(RunFailure::Connectivity));
}
