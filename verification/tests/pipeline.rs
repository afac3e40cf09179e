use media_importer::importer::report::Report;
use media_importer::importer::run::{Action, Event, ImportRun, Phase};
use media_importer::importer::{
    AdapterError, AdapterErrorKind, DeployImportJobInput, DeployTraktImportInput, ImportDetails,
    ImportError, ImportFailStep, ImportFailedItem, ImportResult, ImportResultResponse,
    ImporterService, SourceSpecificInput,
};
use media_importer::models::{
    AddMediaToCollection, CreateOrUpdateCollectionInput, ImportOrExportItem,
    ImportOrExportItemIdentifier, ImportOrExportItemRating, ImportOrExportItemReview,
    ImportOrExportItemSeen, MediaDetails, MediaImportSource, MetadataLot, MetadataSource,
    PostReviewInput, ProgressUpdateInput, Rating,
};
use media_importer::time::{CalendarDay, Timestamp};

fn trakt_request(username: &str) -> DeployImportJobInput {
    DeployImportJobInput {
        source: MediaImportSource::Trakt,
        media_tracker: None,
        goodreads: None,
        trakt: Some(DeployTraktImportInput { username: username.to_string() }),
        movary: None,
        story_graph: None,
        media_json: None,
    }
}

fn seen(ended_on: Option<Timestamp>) -> ImportOrExportItemSeen {
    ImportOrExportItemSeen {
        started_on: None,
        ended_on,
        show_season_number: None,
        show_episode_number: None,
        podcast_episode_number: None,
    }
}

fn rated(mantissa: i128) -> ImportOrExportItemRating {
    ImportOrExportItemRating {
        review: None,
        rating: Some(Rating { mantissa, scale: 0 }),
        show_season_number: None,
        show_episode_number: None,
        podcast_episode_number: None,
    }
}

fn empty_review() -> ImportOrExportItemRating {
    ImportOrExportItemRating {
        review: None,
        rating: None,
        show_season_number: None,
        show_episode_number: None,
        podcast_episode_number: None,
    }
}

fn item(
    source_id: &str,
    seen_history: Vec<ImportOrExportItemSeen>,
    reviews: Vec<ImportOrExportItemRating>,
    collections: Vec<&str>,
) -> ImportOrExportItem {
    ImportOrExportItem {
        source_id: source_id.to_string(),
        lot: MetadataLot::Movie,
        source: MetadataSource::Tmdb,
        identifier: ImportOrExportItemIdentifier::NeedsDetails(format!("tmdb-{}", source_id)),
        seen_history,
        reviews,
        collections: collections.into_iter().map(|name| name.to_string()).collect(),
    }
}

fn watchlist() -> CreateOrUpdateCollectionInput {
    CreateOrUpdateCollectionInput {
        name: "Watchlist".to_string(),
        description: None,
        visibility: None,
        update_id: None,
    }
}

fn started_at() -> Timestamp {
    Timestamp::new(1_700_000_000, 0)
}

/// Begins a Trakt import for user 7 and brings it to the point where the
/// source has been read.
fn run_with(import: ImportResult) -> (ImportRun, Action) {
    let (mut run, first) =
        ImporterService::new().import_from_source(7, trakt_request("alice")).unwrap();
    assert_eq!(first, Action::StartImportJob { user_id: 7, source: MediaImportSource::Trakt });
    let second = run.step(Event::ReportStarted { id: 41, started_on: started_at() });
    assert_eq!(
        second,
        Action::RunAdapter(SourceSpecificInput::Trakt(DeployTraktImportInput {
            username: "alice".to_string()
        }))
    );
    let third = run.step(Event::AdapterFinished(import));
    (run, third)
}

/// Answers every request with success until the run is over, and hands back
/// the requests in the order in which they were made.
fn drive_to_end(run: &mut ImportRun, first: Action) -> Vec<Action> {
    let mut requests = vec![first];
    let mut next_id = 100;
    while !run.is_over() {
        let event = match requests.last().unwrap() {
            Action::CommitMedia { .. } | Action::CommitMediaInternal(_) => {
                next_id += 1;
                Event::MediaCommitted { metadata_id: next_id }
            }
            _ => Event::Completed,
        };
        requests.push(run.step(event));
        assert!(requests.len() < 1000);
    }
    requests
}

#[test]
fn trakt_import_end_to_end() {
    let import = ImportResult::new(
        vec![watchlist()],
        vec![
            item("quiet-one", vec![], vec![], vec![]),
            item("busy", vec![seen(None), seen(None)], vec![rated(8)], vec![]),
            item("quiet-two", vec![], vec![], vec![]),
        ],
    );
    let (mut run, first) = run_with(import);
    assert_eq!(first, Action::CreateOrUpdateCollection { user_id: 7, input: watchlist() });
    assert_eq!(run.media()[0].source_id, "busy");
    let requests = drive_to_end(&mut run, first);

    let first_commit =
        requests.iter().position(|r| matches!(r, Action::CommitMedia { .. })).unwrap();
    assert_eq!(first_commit, 1);
    assert_eq!(
        requests[1],
        Action::CommitMedia {
            lot: MetadataLot::Movie,
            source: MetadataSource::Tmdb,
            identifier: "tmdb-busy".to_string()
        }
    );
    let updates =
        requests.iter().filter(|r| matches!(r, Action::ProgressUpdate { .. })).count();
    let reviews = requests.iter().filter(|r| matches!(r, Action::PostReview { .. })).count();
    let commits = requests.iter().filter(|r| matches!(r, Action::CommitMedia { .. })).count();
    assert_eq!((commits, updates, reviews), (3, 2, 1));

    let saved = requests
        .iter()
        .find_map(|r| match r {
            Action::SaveReport { report } => Some(report),
            _ => None,
        })
        .unwrap();
    assert_eq!(
        *saved,
        Report {
            id: 41,
            user_id: 7,
            source: MediaImportSource::Trakt,
            started_on: started_at(),
            success: Some(true),
            result: Some(ImportResultResponse {
                source: MediaImportSource::Trakt,
                import: ImportDetails { total: 3 },
                failed_items: vec![],
            }),
        }
    );
    let n = requests.len();
    assert_eq!(requests[n - 2], Action::RecalculateSummary { user_id: 7 });
    assert_eq!(requests[n - 1], Action::Done);
    assert_eq!(run.phase(), Phase::Finished);
    assert!(run.failed_items().is_empty());
}

#[test]
fn report_is_saved_once_per_run() {
    let import = ImportResult::new(vec![], vec![item("a", vec![seen(None)], vec![], vec!["Owned"])]);
    let (mut run, first) = run_with(import);
    let requests = drive_to_end(&mut run, first);
    let saves = requests.iter().filter(|r| matches!(r, Action::SaveReport { .. })).count();
    assert_eq!(saves, 1);
    assert_eq!(run.step(Event::Completed), Action::Done);
    assert_eq!(run.step(Event::Failed { message: "late".to_string() }), Action::Done);
    assert_eq!(run.phase(), Phase::Finished);
}

#[test]
fn total_and_failures_add_up_to_items() {
    let import = ImportResult::new(
        vec![],
        vec![
            item("a", vec![seen(None)], vec![], vec![]),
            item("b", vec![], vec![], vec![]),
            item("c", vec![], vec![], vec![]),
        ],
    );
    let (mut run, first) = run_with(import);
    assert!(matches!(first, Action::CommitMedia { .. }));
    let after_a = run.step(Event::Failed { message: "no such movie".to_string() });
    let mut requests = drive_to_end(&mut run, after_a);
    requests.retain(|r| matches!(r, Action::SaveReport { .. }));
    match &requests[0] {
        Action::SaveReport { report } => {
            let result = report.result.as_ref().unwrap();
            assert_eq!(report.success, Some(true));
            assert_eq!(result.import.total, 2);
            assert_eq!(result.failed_items.len(), 1);
            assert_eq!(result.import.total + result.failed_items.len(), run.media().len());
        }
        _ => unreachable!(),
    }
}

#[test]
fn review_without_content_leaves_no_trace() {
    let import = ImportResult::new(
        vec![],
        vec![item("a", vec![], vec![empty_review(), rated(5), empty_review()], vec![])],
    );
    let (mut run, first) = run_with(import);
    assert!(matches!(first, Action::CommitMedia { .. }));
    let next = run.step(Event::MediaCommitted { metadata_id: 9 });
    assert_eq!(
        next,
        Action::PostReview {
            user_id: 7,
            input: PostReviewInput {
                rating: Some(Rating { mantissa: 5, scale: 0 }),
                text: None,
                visibility: None,
                spoiler: None,
                metadata_id: 9,
                date: None,
                review_id: None,
                show_season_number: None,
                show_episode_number: None,
                podcast_episode_number: None,
            }
        }
    );
    assert_eq!(run.phase(), Phase::PostingReview { item: 0, entry: 1, metadata_id: 9 });
    let requests = drive_to_end(&mut run, next);
    let posts = requests.iter().filter(|r| matches!(r, Action::PostReview { .. })).count();
    assert_eq!(posts, 1);
    assert!(run.failed_items().is_empty());
}

#[test]
fn only_empty_reviews_means_no_review_request() {
    let import =
        ImportResult::new(vec![], vec![item("a", vec![], vec![empty_review()], vec![])]);
    let (mut run, first) = run_with(import);
    assert!(matches!(first, Action::CommitMedia { .. }));
    let next = run.step(Event::MediaCommitted { metadata_id: 9 });
    assert!(matches!(next, Action::SaveReport { .. }));
    assert!(run.failed_items().is_empty());
}

#[test]
fn review_with_text_object_but_no_text_is_skipped() {
    let hollow = ImportOrExportItemRating {
        review: Some(ImportOrExportItemReview { date: None, spoiler: Some(true), text: None }),
        rating: None,
        show_season_number: None,
        show_episode_number: None,
        podcast_episode_number: None,
    };
    assert!(!hollow.has_content());
    assert!(!empty_review().has_content());
    assert!(rated(1).has_content());
    let written = ImportOrExportItemRating {
        review: Some(ImportOrExportItemReview {
            date: Some(Timestamp::new(10, 5)),
            spoiler: None,
            text: Some("fine".to_string()),
        }),
        rating: None,
        show_season_number: Some(2),
        show_episode_number: Some(3),
        podcast_episode_number: None,
    };
    assert!(written.has_content());
    assert_eq!(
        written.post_review_input(12),
        PostReviewInput {
            rating: None,
            text: Some("fine".to_string()),
            visibility: None,
            spoiler: Some(false),
            metadata_id: 12,
            date: Some(Timestamp::new(10, 5)),
            review_id: None,
            show_season_number: Some(2),
            show_episode_number: Some(3),
            podcast_episode_number: None,
        }
    );
}

#[test]
fn failed_resolve_skips_item_but_not_the_rest() {
    let import = ImportResult::new(
        vec![],
        vec![
            item("x", vec![seen(None), seen(None)], vec![rated(3)], vec!["Owned"]),
            item("y", vec![seen(None)], vec![], vec![]),
        ],
    );
    let (mut run, first) = run_with(import);
    assert_eq!(
        first,
        Action::CommitMedia {
            lot: MetadataLot::Movie,
            source: MetadataSource::Tmdb,
            identifier: "tmdb-x".to_string()
        }
    );
    let next = run.step(Event::Failed { message: "provider down".to_string() });
    assert_eq!(
        next,
        Action::CommitMedia {
            lot: MetadataLot::Movie,
            source: MetadataSource::Tmdb,
            identifier: "tmdb-y".to_string()
        }
    );
    assert_eq!(
        *run.failed_items(),
        vec![ImportFailedItem {
            lot: MetadataLot::Movie,
            step: ImportFailStep::MediaDetailsFromProvider,
            identifier: "x".to_string(),
            error: Some("provider down".to_string()),
        }]
    );
    let requests = drive_to_end(&mut run, next);
    let updates =
        requests.iter().filter(|r| matches!(r, Action::ProgressUpdate { .. })).count();
    let others = requests
        .iter()
        .filter(|r| {
            matches!(
                r,
                Action::PostReview { .. }
                    | Action::CreateOrUpdateCollection { .. }
                    | Action::AddMediaToCollection { .. }
            )
        })
        .count();
    assert_eq!((updates, others), (1, 0));
}

#[test]
fn history_and_review_failures_are_noted_and_passed() {
    let import = ImportResult::new(
        vec![],
        vec![
            item("x", vec![seen(None), seen(None)], vec![rated(3)], vec![]),
            item("y", vec![], vec![], vec![]),
            item("z", vec![], vec![], vec![]),
        ],
    );
    let (mut run, _first) = run_with(import);
    let a = run.step(Event::MediaCommitted { metadata_id: 1 });
    assert!(matches!(a, Action::ProgressUpdate { .. }));
    let b = run.step(Event::Failed { message: "first".to_string() });
    assert!(matches!(b, Action::ProgressUpdate { .. }));
    let c = run.step(Event::Completed);
    assert!(matches!(c, Action::PostReview { .. }));
    let d = run.step(Event::Failed { message: "second".to_string() });
    assert!(matches!(d, Action::CommitMedia { .. }));
    assert_eq!(
        *run.failed_items(),
        vec![
            ImportFailedItem {
                lot: MetadataLot::Movie,
                step: ImportFailStep::SeenHistoryConversion,
                identifier: "x".to_string(),
                error: Some("first".to_string()),
            },
            ImportFailedItem {
                lot: MetadataLot::Movie,
                step: ImportFailStep::ReviewConversion,
                identifier: "x".to_string(),
                error: Some("second".to_string()),
            },
        ]
    );
    let requests = drive_to_end(&mut run, d);
    let saved = requests
        .iter()
        .find_map(|r| match r {
            Action::SaveReport { report } => Some(report),
            _ => None,
        })
        .unwrap();
    assert_eq!(saved.result.as_ref().unwrap().import.total, 1);
}

#[test]
fn more_failures_than_items_gives_the_import_up() {
    let import =
        ImportResult::new(vec![], vec![item("x", vec![seen(None), seen(None)], vec![], vec![])]);
    let (mut run, _first) = run_with(import);
    run.step(Event::MediaCommitted { metadata_id: 1 });
    run.step(Event::Failed { message: "one".to_string() });
    let last = run.step(Event::Failed { message: "two".to_string() });
    assert_eq!(last, Action::Abort(ImportError::MoreFailuresThanItems));
    assert_eq!(run.phase(), Phase::Aborted);
    assert!(run.is_over());
    assert_eq!(run.step(Event::Completed), Action::Abort(ImportError::MoreFailuresThanItems));
}

#[test]
fn collections_are_ensured_then_filled_and_failures_ignored() {
    let import = ImportResult::new(
        vec![watchlist()],
        vec![item("x", vec![], vec![], vec!["Owned", "Favourites"])],
    );
    let (mut run, first) = run_with(import);
    assert_eq!(first, Action::CreateOrUpdateCollection { user_id: 7, input: watchlist() });
    let a = run.step(Event::Failed { message: "exists".to_string() });
    assert!(matches!(a, Action::CommitMedia { .. }));
    let b = run.step(Event::MediaCommitted { metadata_id: 55 });
    assert_eq!(
        b,
        Action::CreateOrUpdateCollection {
            user_id: 7,
            input: CreateOrUpdateCollectionInput {
                name: "Owned".to_string(),
                description: None,
                visibility: None,
                update_id: None
            }
        }
    );
    let c = run.step(Event::Failed { message: "exists".to_string() });
    assert_eq!(
        c,
        Action::AddMediaToCollection {
            user_id: 7,
            input: AddMediaToCollection { collection_name: "Owned".to_string(), media_id: 55 }
        }
    );
    let d = run.step(Event::Failed { message: "already in".to_string() });
    assert!(matches!(d, Action::CreateOrUpdateCollection { .. }));
    let e = run.step(Event::Completed);
    assert_eq!(
        e,
        Action::AddMediaToCollection {
            user_id: 7,
            input: AddMediaToCollection {
                collection_name: "Favourites".to_string(),
                media_id: 55
            }
        }
    );
    let f = run.step(Event::Completed);
    assert!(matches!(f, Action::SaveReport { .. }));
    assert!(run.failed_items().is_empty());
}

#[test]
fn filled_item_is_committed_as_it_is() {
    let details = MediaDetails {
        identifier: "isbn-1".to_string(),
        title: "A Book".to_string(),
        description: Some("about things".to_string()),
        lot: MetadataLot::Book,
        source: MetadataSource::Custom,
        publish_year: Some(1999),
    };
    let mut filled = item("b1", vec![seen(Some(Timestamp::new(86_400 * 3 + 5, 0)))], vec![], vec![]);
    filled.lot = MetadataLot::Book;
    filled.identifier = ImportOrExportItemIdentifier::AlreadyFilled(details.clone());
    let (mut run, first) = run_with(ImportResult::new(vec![], vec![filled]));
    assert_eq!(first, Action::CommitMediaInternal(details));
    let next = run.step(Event::MediaCommitted { metadata_id: 77 });
    assert_eq!(
        next,
        Action::ProgressUpdate {
            input: ProgressUpdateInput {
                metadata_id: 77,
                progress: Some(100),
                date: Some(CalendarDay { days_from_ce: 719_166 }),
                show_season_number: None,
                show_episode_number: None,
                podcast_episode_number: None,
            },
            user_id: 7
        }
    );
}

#[test]
fn adapter_failure_closes_the_report_as_failed() {
    let (mut run, _first) =
        ImporterService::new().import_from_source(7, trakt_request("alice")).unwrap();
    run.step(Event::ReportStarted { id: 41, started_on: started_at() });
    let action = run.step(Event::AdapterFailed(AdapterError {
        kind: AdapterErrorKind::SourceUnavailable,
        lot: MetadataLot::Show,
        identifier: "alice".to_string(),
        message: "timeout".to_string(),
    }));
    let synthetic = ImportFailedItem {
        lot: MetadataLot::Show,
        step: ImportFailStep::ItemDetailsFromSource,
        identifier: "alice".to_string(),
        error: Some("timeout".to_string()),
    };
    assert_eq!(
        action,
        Action::SaveReport {
            report: Report {
                id: 41,
                user_id: 7,
                source: MediaImportSource::Trakt,
                started_on: started_at(),
                success: Some(false),
                result: Some(ImportResultResponse {
                    source: MediaImportSource::Trakt,
                    import: ImportDetails { total: 0 },
                    failed_items: vec![synthetic.clone()],
                }),
            }
        }
    );
    assert_eq!(*run.failed_items(), vec![synthetic]);
    assert_eq!(run.step(Event::Completed), Action::Done);
    assert_eq!(run.phase(), Phase::Finished);
}

#[test]
fn malformed_source_is_filed_under_transformation() {
    let error = AdapterError {
        kind: AdapterErrorKind::MalformedInput,
        lot: MetadataLot::Book,
        identifier: "export.csv".to_string(),
        message: "line 3".to_string(),
    };
    assert_eq!(
        error.into_failed_item(),
        ImportFailedItem {
            lot: MetadataLot::Book,
            step: ImportFailStep::InputTransformation,
            identifier: "export.csv".to_string(),
            error: Some("line 3".to_string()),
        }
    );
}

#[test]
fn missing_payload_is_refused() {
    let mut request = trakt_request("alice");
    request.source = MediaImportSource::Goodreads;
    assert_eq!(
        ImporterService::new().import_from_source(7, request).err(),
        Some(ImportError::MissingPayload)
    );
    let mut request = trakt_request("alice");
    request.trakt = None;
    assert_eq!(ImportRun::begin(7, request).err(), Some(ImportError::MissingPayload));
}

#[test]
fn report_that_cannot_be_opened_gives_the_import_up() {
    let (mut run, _first) =
        ImporterService::new().import_from_source(7, trakt_request("alice")).unwrap();
    let action = run.step(Event::Failed { message: "db down".to_string() });
    assert_eq!(
        action,
        Action::Abort(ImportError::ReportNotStarted { message: "db down".to_string() })
    );
    assert!(run.is_over());
}

#[test]
fn report_that_cannot_be_saved_gives_the_import_up() {
    let (mut run, first) = run_with(ImportResult::new(vec![], vec![]));
    assert!(matches!(first, Action::SaveReport { .. }));
    let action = run.step(Event::Failed { message: "db down".to_string() });
    assert_eq!(
        action,
        Action::Abort(ImportError::ReportNotSaved { message: "db down".to_string() })
    );
}

#[test]
fn answer_of_the_wrong_kind_gives_the_import_up() {
    let (mut run, _first) =
        ImporterService::new().import_from_source(7, trakt_request("alice")).unwrap();
    let action = run.step(Event::MediaCommitted { metadata_id: 3 });
    assert_eq!(action, Action::Abort(ImportError::UnexpectedEvent));
    let (mut run, first) = run_with(ImportResult::new(vec![], vec![item("a", vec![], vec![], vec![])]));
    assert!(matches!(first, Action::CommitMedia { .. }));
    assert_eq!(run.step(Event::Completed), Action::Abort(ImportError::UnexpectedEvent));
}

#[test]
fn summary_failure_does_not_fail_the_import() {
    let (mut run, first) = run_with(ImportResult::new(vec![], vec![]));
    assert!(matches!(first, Action::SaveReport { .. }));
    assert_eq!(run.step(Event::Completed), Action::RecalculateSummary { user_id: 7 });
    assert_eq!(run.step(Event::Failed { message: "queue full".to_string() }), Action::Done);
    assert_eq!(run.phase(), Phase::Finished);
}

#[test]
fn failures_of_the_source_are_kept_and_counted() {
    let earlier = ImportFailedItem {
        lot: MetadataLot::Show,
        step: ImportFailStep::ItemDetailsFromSource,
        identifier: "s1".to_string(),
        error: None,
    };
    let import = ImportResult {
        collections: vec![],
        media: vec![item("a", vec![], vec![], vec![]), item("b", vec![], vec![], vec![])],
        failed_items: vec![earlier.clone()],
    };
    let (mut run, first) = run_with(import);
    let requests = drive_to_end(&mut run, first);
    let saved = requests
        .iter()
        .find_map(|r| match r {
            Action::SaveReport { report } => Some(report),
            _ => None,
        })
        .unwrap();
    assert_eq!(
        saved.result,
        Some(ImportResultResponse {
            source: MediaImportSource::Trakt,
            import: ImportDetails { total: 1 },
            failed_items: vec![earlier],
        })
    );
}

#[test]
fn summarize_counts_what_came_through() {
    let failure = ImportFailedItem {
        lot: MetadataLot::Movie,
        step: ImportFailStep::ReviewConversion,
        identifier: "m".to_string(),
        error: None,
    };
    assert_eq!(
        ImportResultResponse::summarize(MediaImportSource::Movary, 5, vec![failure.clone()]),
        Some(ImportResultResponse {
            source: MediaImportSource::Movary,
            import: ImportDetails { total: 4 },
            failed_items: vec![failure.clone()],
        })
    );
    assert_eq!(
        ImportResultResponse::summarize(MediaImportSource::Movary, 0, vec![]),
        Some(ImportResultResponse {
            source: MediaImportSource::Movary,
            import: ImportDetails { total: 0 },
            failed_items: vec![],
        })
    );
    assert_eq!(ImportResultResponse::summarize(MediaImportSource::Movary, 0, vec![failure]), None);
}

#[test]
fn run_shows_what_it_holds() {
    let (mut run, _first) =
        ImporterService::new().import_from_source(7, trakt_request("alice")).unwrap();
    assert_eq!(run.user_id(), 7);
    assert_eq!(run.source(), MediaImportSource::Trakt);
    assert_eq!(*run.report(), None);
    assert_eq!(run.phase(), Phase::OpeningReport);
    run.step(Event::ReportStarted { id: 41, started_on: started_at() });
    assert_eq!(
        *run.report(),
        Some(Report::start(41, 7, MediaImportSource::Trakt, started_at()))
    );
    assert_eq!(run.phase(), Phase::RunningAdapter);
    let import =
        ImportResult::new(vec![watchlist()], vec![item("a", vec![], vec![], vec![])]);
    run.step(Event::AdapterFinished(import));
    assert_eq!(*run.collections(), vec![watchlist()]);
    assert_eq!(run.media().len(), 1);
    assert_eq!(run.phase(), Phase::CreatingCollection { next: 0 });
    assert!(!run.is_over());
}
