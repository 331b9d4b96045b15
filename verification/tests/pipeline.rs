//! The coordinator over pre-fetched inputs: determinism, fail-fast
//! propagation, and ordering of the fan-in output.

use pokemon2rdf::error::{PipelineError, ResourceKind};
use pokemon2rdf::model::{Habitat, MoveTarget, Region};
use pokemon2rdf::pipeline::{run_pipeline, EntityInput, Pipeline, PipelineStatus, Summary,
    TaskInput, TaskState};
use pokemon2rdf::resource::ResourceDetail;
use pokemon2rdf::sink::Sink;
use pokemon2rdf::statement::{EntityRef, Statement, Term};

fn habitat_entity(id: u64) -> EntityInput {
    EntityInput {
        summary: Summary {
            name: format!("habitat-{}", id),
            url: format!("https://pokeapi.co/api/v2/pokemon-habitat/{}/", id),
        },
        detail: Some(ResourceDetail::Habitat(Habitat {
            id,
            name: format!("habitat-{}", id),
            names: vec![],
            species_urls: vec![],
        })),
    }
}

fn failed_entity(id: u64) -> EntityInput {
    EntityInput {
        summary: Summary {
            name: format!("habitat-{}", id),
            url: format!("https://pokeapi.co/api/v2/pokemon-habitat/{}/", id),
        },
        detail: None,
    }
}

#[test]
fn identical_inputs_write_identical_lines() {
    let make = || vec![
        TaskInput {
            kind: ResourceKind::Habitat,
            listing: Some(vec![habitat_entity(1), habitat_entity(2)]),
        },
        TaskInput {
            kind: ResourceKind::Region,
            listing: Some(vec![EntityInput {
                summary: Summary {
                    name: String::from("kanto"),
                    url: String::from("https://pokeapi.co/api/v2/region/1/"),
                },
                detail: Some(ResourceDetail::Region(Region {
                    id: 1,
                    name: String::from("kanto"),
                    names: vec![],
                    location_urls: vec![],
                })),
            }]),
        },
    ];
    let (p1, r1) = run_pipeline(&make(), "en");
    let (p2, r2) = run_pipeline(&make(), "en");
    assert!(r1.is_ok() && r2.is_ok());
    assert_eq!(p1.lines(), p2.lines());
}

#[test]
fn fetch_failure_stops_the_run_at_the_failing_entity() {
    let mut entities = vec![habitat_entity(1), habitat_entity(2), failed_entity(3)];
    for id in 4..=10 {
        entities.push(habitat_entity(id));
    }
    let inputs = vec![TaskInput { kind: ResourceKind::Habitat, listing: Some(entities) }];
    let (p, r) = run_pipeline(&inputs, "en");
    match r {
        Err(PipelineError::FetchFailed(kind, url)) => {
            assert_eq!(kind, ResourceKind::Habitat);
            assert_eq!(url, "https://pokeapi.co/api/v2/pokemon-habitat/3/");
        }
        _ => panic!("expected the third fetch to be fatal"),
    }
    assert_eq!(p.status(), PipelineStatus::Failed);
    let lines = p.lines();
    assert_eq!(lines.len(), 6);
    assert!(lines.iter().all(|l| !l.contains("habitat/3/")
        && !l.contains("habitat/4/") && !l.contains("habitat/10/")));
    assert!(lines[0].contains("pokemon-habitat/1/"));
    assert!(lines[3].contains("pokemon-habitat/2/"));
}

#[test]
fn listing_failure_stops_the_run_before_any_line() {
    let inputs = vec![
        TaskInput { kind: ResourceKind::Berry, listing: None },
        TaskInput {
            kind: ResourceKind::Habitat,
            listing: Some(vec![habitat_entity(1)]),
        },
    ];
    let (p, r) = run_pipeline(&inputs, "en");
    match r {
        Err(PipelineError::ListingFailed(kind)) => assert_eq!(kind, ResourceKind::Berry),
        _ => panic!("expected the listing failure to be fatal"),
    }
    assert_eq!(p.lines().len(), 0);
}

#[test]
fn two_tasks_keep_their_own_emission_order() {
    let inputs = vec![
        TaskInput {
            kind: ResourceKind::Habitat,
            listing: Some(vec![habitat_entity(9)]),
        },
        TaskInput {
            kind: ResourceKind::MoveTarget,
            listing: Some(vec![EntityInput {
                summary: Summary {
                    name: String::from("selected-pokemon"),
                    url: String::from("https://pokeapi.co/api/v2/move-target/1/"),
                },
                detail: Some(ResourceDetail::MoveTarget(MoveTarget {
                    descriptions: vec![],
                    move_urls: vec![],
                    names: vec![],
                })),
            }]),
        },
    ];
    let (p, r) = run_pipeline(&inputs, "en");
    assert!(r.is_ok());
    let lines = p.lines();
    assert_eq!(lines.len(), 5);
    assert!(lines[0].contains("#Habitat>"));
    assert!(lines[1].contains("identifier"));
    assert!(lines[2].ends_with("\"habitat-9\" ."));
    assert!(lines[3].contains("#MoveTarget>"));
    assert!(lines[4].ends_with("\"selected-pokemon\" ."));
}

#[test]
fn coordinator_walks_its_state_machine() {
    let mut p = Pipeline::new("en");
    assert_eq!(p.status(), PipelineStatus::Idle);
    p.begin();
    assert_eq!(p.status(), PipelineStatus::Running);
    let r = p.run_task(&TaskInput {
        kind: ResourceKind::Habitat,
        listing: Some(vec![habitat_entity(1)]),
    });
    assert!(r.is_ok());
    p.finish();
    assert_eq!(p.status(), PipelineStatus::Completed);
    assert_eq!(p.lines().len(), 3);
}

#[test]
fn closed_sink_refuses_statements() {
    let mut sink = Sink::new();
    let stmt = Statement {
        subject: EntityRef::named(String::from("http://example.org/a")).unwrap(),
        predicate: String::from("http://example.org/p"),
        object: Term::Bool(true),
    };
    assert!(sink.accept(&stmt).is_ok());
    sink.close();
    match sink.accept(&stmt) {
        Err(PipelineError::SinkClosed) => {}
        _ => panic!("expected the closed sink to refuse the statement"),
    }
    assert_eq!(sink.line_count(), 1);
}

#[test]
fn task_state_tracks_progress() {
    let mut ts = TaskState::new(ResourceKind::Berry, 2);
    assert_eq!((ts.done, ts.total), (0, 2));
    ts.tick();
    ts.tick();
    assert_eq!((ts.done, ts.total), (2, 2));
}
