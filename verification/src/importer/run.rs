//! One import, step by step: what to ask of the catalog next, and what each
//! answer changes.
//!
//! A run never calls anything itself. It names the request that is open, the
//! caller carries it out and reports the answer, and the run moves on. The
//! whole course of an import is therefore a function of the answers.

use vstd::prelude::*;
use crate::importer::order::{descending_by_activity, most_active_first};
use crate::importer::report::Report;
use crate::importer::{
    AdapterError, DeployImportJobInput, ImportDetails, ImportError, ImportFailStep,
    ImportFailedItem, ImportResult, ImportResultResponse, SourceSpecificInput,
};
use crate::models::{
    AddMediaToCollection, CreateOrUpdateCollectionInput, ImportOrExportItem,
    ImportOrExportItemIdentifier, ImportOrExportItemRating, MediaDetails, MediaImportSource,
    MetadataLot, MetadataSource, PostReviewInput, ProgressUpdateInput,
};
use crate::time::Timestamp;

verus! {

/// Where a run stands: the request that is open, or how the run ended.
#[derive(Clone, Copy, Debug, PartialEq, Eq, Structural)]
pub enum Phase {
    /// A report is being opened.
    OpeningReport,
    /// The source is being read.
    RunningAdapter,
    /// The import's own collection number `next` is being created.
    CreatingCollection { next: usize },
    /// The catalog entry of item `item` is being resolved.
    CommittingMedia { item: usize },
    /// Viewing `entry` of item `item` is being recorded.
    UpdatingProgress { item: usize, entry: usize, metadata_id: i32 },
    /// Review `entry` of item `item` is being stored.
    PostingReview { item: usize, entry: usize, metadata_id: i32 },
    /// Collection `entry` of item `item` is being made sure of.
    EnsuringCollection { item: usize, entry: usize, metadata_id: i32 },
    /// Item `item` is being put into its collection `entry`.
    AddingToCollection { item: usize, entry: usize, metadata_id: i32 },
    /// The outcome of a reconciled import is being written onto the report.
    SavingReport,
    /// The failure of the source is being written onto the report.
    SavingFailure,
    /// The user's summary is being brought up to date.
    RecalculatingSummary,
    /// The import is over and its report is closed.
    Finished,
    /// The import was given up; its report, if one was opened, stays open.
    Aborted,
}

/// What the caller is asked to do next.
#[derive(Debug, PartialEq, Eq)]
#[allow(inconsistent_fields)]
pub enum Action {
    StartImportJob { user_id: i32, source: MediaImportSource },
    RunAdapter(SourceSpecificInput),
    CreateOrUpdateCollection { user_id: i32, input: CreateOrUpdateCollectionInput },
    CommitMedia { lot: MetadataLot, source: MetadataSource, identifier: String },
    CommitMediaInternal(MediaDetails),
    ProgressUpdate { input: ProgressUpdateInput, user_id: i32 },
    PostReview { user_id: i32, input: PostReviewInput },
    AddMediaToCollection { user_id: i32, input: AddMediaToCollection },
    /// Write the closed report back.
    SaveReport { report: Report },
    /// Ask for the user's summary to be recalculated; the answer does not
    /// matter.
    RecalculateSummary { user_id: i32 },
    /// Nothing is left to do.
    Done,
    /// Give the import up for the reason given.
    Abort(ImportError),
}

/// The answer to the request that was open.
#[derive(Debug, PartialEq, Eq)]
pub enum Event {
    /// A report was opened.
    ReportStarted { id: i32, started_on: Timestamp },
    /// The source was read.
    AdapterFinished(ImportResult),
    /// The source could not be read.
    AdapterFailed(AdapterError),
    /// The catalog holds the entry now.
    MediaCommitted { metadata_id: i32 },
    /// The request was carried out.
    Completed,
    /// The request failed.
    Failed { message: String },
}

/// A run as a mathematical value.
pub struct RunModel {
    pub user_id: i32,
    pub source: MediaImportSource,
    pub payload: SourceSpecificInput,
    pub phase: Phase,
    pub report: Option<Report>,
    pub collections: Seq<CreateOrUpdateCollectionInput>,
    pub media: Seq<ImportOrExportItem>,
    pub failed: Seq<ImportFailedItem>,
    pub error: Option<ImportError>,
}

/// One import in progress.
pub struct ImportRun {
    user_id: i32,
    source: MediaImportSource,
    payload: SourceSpecificInput,
    phase: Phase,
    report: Option<Report>,
    collections: Vec<CreateOrUpdateCollectionInput>,
    media: Vec<ImportOrExportItem>,
    failed_items: Vec<ImportFailedItem>,
    error: Option<ImportError>,
}

/// The first review at or after `from` that has anything to store, or the
/// number of reviews if there is none.
pub open spec fn next_review(reviews: Seq<ImportOrExportItemRating>, from: int) -> int
    decreases reviews.len() - from,
{
    if from < 0 || from >= reviews.len() {
        reviews.len() as int
    } else if reviews[from].has_content_spec() {
        from
    } else {
        next_review(reviews, from + 1)
    }
}

/// The lists of an item are vectors, so their lengths are machine numbers.
pub(crate) proof fn lengths_fit(item: ImportOrExportItem)
    ensures
        item.seen_history@.len() <= usize::MAX,
        item.reviews@.len() <= usize::MAX,
        item.collections@.len() <= usize::MAX,
{
    assert(item.seen_history@.len() == item.seen_history.len());
    assert(item.reviews@.len() == item.reviews.len());
    assert(item.collections@.len() == item.collections.len());
}

/// The entry that stands in a report for a failure on `item`.
pub open spec fn failure_of(item: ImportOrExportItem, step: ImportFailStep, message: String) -> ImportFailedItem {
    ImportFailedItem { lot: item.lot, step, identifier: item.source_id, error: Some(message) }
}

impl RunModel {
    /// The run with one more failure noted.
    pub open spec fn noting(self, failure: ImportFailedItem) -> RunModel {
        RunModel { failed: self.failed.push(failure), ..self }
    }

    /// The run given up for `error`.
    pub open spec fn aborted(self, error: ImportError) -> RunModel {
        RunModel { phase: Phase::Aborted, error: Some(error), ..self }
    }

    /// The run in another phase.
    pub open spec fn in_phase(self, phase: Phase) -> RunModel {
        RunModel { phase, ..self }
    }

    /// The run once every item has been dealt with: the outcome is written,
    /// unless more failures were noted than items were read.
    pub open spec fn at_end(self) -> RunModel {
        if self.failed.len() <= self.media.len() {
            self.in_phase(Phase::SavingReport)
        } else {
            self.aborted(ImportError::MoreFailuresThanItems)
        }
    }

    /// The run about to deal with item `item`, or at its end when no such
    /// item is left.
    pub open spec fn at_item(self, item: int) -> RunModel {
        if 0 <= item < self.media.len() {
            self.in_phase(Phase::CommittingMedia { item: item as usize })
        } else {
            self.at_end()
        }
    }

    /// The run about to put item `item` into its collection `entry`, or
    /// moving on to the next item when no such collection is left.
    pub open spec fn at_collection(self, item: int, entry: int, metadata_id: i32) -> RunModel
        recommends
            0 <= item < self.media.len(),
    {
        if 0 <= entry < self.media[item].collections@.len() {
            self.in_phase(
                Phase::EnsuringCollection {
                    item: item as usize,
                    entry: entry as usize,
                    metadata_id,
                },
            )
        } else {
            self.at_item(item + 1)
        }
    }

    /// The run about to store the first review of item `item` at or after
    /// `from` that has anything to store, or moving on to the item's
    /// collections when there is none.
    pub open spec fn at_review(self, item: int, from: int, metadata_id: i32) -> RunModel
        recommends
            0 <= item < self.media.len(),
    {
        let entry = next_review(self.media[item].reviews@, from);
        if 0 <= entry < self.media[item].reviews@.len() {
            self.in_phase(
                Phase::PostingReview { item: item as usize, entry: entry as usize, metadata_id },
            )
        } else {
            self.at_collection(item, 0, metadata_id)
        }
    }

    /// The run about to record viewing `entry` of item `item`, or moving on
    /// to the item's reviews when no such viewing is left.
    pub open spec fn at_seen(self, item: int, entry: int, metadata_id: i32) -> RunModel
        recommends
            0 <= item < self.media.len(),
    {
        if 0 <= entry < self.media[item].seen_history@.len() {
            self.in_phase(
                Phase::UpdatingProgress {
                    item: item as usize,
                    entry: entry as usize,
                    metadata_id,
                },
            )
        } else {
            self.at_review(item, 0, metadata_id)
        }
    }

    /// The run about to create the import's own collection `next`, or moving
    /// on to the first item when no such collection is left.
    pub open spec fn at_top_collection(self, next: int) -> RunModel {
        if 0 <= next < self.collections.len() {
            self.in_phase(Phase::CreatingCollection { next: next as usize })
        } else {
            self.at_item(0)
        }
    }

    /// The positions named by the phase exist, a review that is being stored
    /// has something to store, the lists are no longer than a vector can be,
    /// the report is open while the import is under way, and a reason is
    /// kept exactly when the run was given up.
    pub open spec fn wf(self) -> bool {
        &&& match self.phase {
            Phase::OpeningReport => self.report is None && self.failed.len() == 0,
            Phase::RunningAdapter => self.failed.len() == 0,
            Phase::CreatingCollection { next } => next < self.collections.len(),
            Phase::CommittingMedia { item } => item < self.media.len(),
            Phase::UpdatingProgress { item, entry, metadata_id } => {
                &&& item < self.media.len()
                &&& entry < self.media[item as int].seen_history@.len()
            },
            Phase::PostingReview { item, entry, metadata_id } => {
                &&& item < self.media.len()
                &&& entry < self.media[item as int].reviews@.len()
                &&& self.media[item as int].reviews@[entry as int].has_content_spec()
            },
            Phase::EnsuringCollection { item, entry, metadata_id } => {
                &&& item < self.media.len()
                &&& entry < self.media[item as int].collections@.len()
            },
            Phase::AddingToCollection { item, entry, metadata_id } => {
                &&& item < self.media.len()
                &&& entry < self.media[item as int].collections@.len()
            },
            Phase::SavingReport => self.failed.len() <= self.media.len(),
            Phase::SavingFailure => true,
            Phase::RecalculatingSummary => true,
            Phase::Finished => true,
            Phase::Aborted => true,
        }
        &&& self.collections.len() <= usize::MAX
        &&& self.media.len() <= usize::MAX
        &&& (self.phase is Aborted <==> self.error is Some)
        &&& (self.phase !is OpeningReport && self.phase !is Aborted ==> self.report is Some)
        &&& (self.report matches Some(report) ==> {
            &&& report.is_running()
            &&& report.result is None
            &&& report.user_id == self.user_id
            &&& report.source == self.source
        })
    }

    /// The import is over, one way or the other.
    pub open spec fn is_over(self) -> bool {
        self.phase is Finished || self.phase is Aborted
    }

    /// The run after `event` has answered the open request, for every answer
    /// but the items that a source has read.
    pub open spec fn after(self, event: Event) -> RunModel {
        match self.phase {
            Phase::OpeningReport => match event {
                Event::ReportStarted { id, started_on } => RunModel {
                    report: Some(Report::started(id, self.user_id, self.source, started_on)),
                    phase: Phase::RunningAdapter,
                    ..self
                },
                Event::Failed { message } => self.aborted(ImportError::ReportNotStarted { message }),
                _ => self.aborted(ImportError::UnexpectedEvent),
            },
            Phase::RunningAdapter => match event {
                Event::AdapterFailed(error) => RunModel {
                    failed: seq![error.failed_item_spec()],
                    phase: Phase::SavingFailure,
                    ..self
                },
                _ => self.aborted(ImportError::UnexpectedEvent),
            },
            Phase::CreatingCollection { next } => match event {
                Event::Completed => self.at_top_collection(next + 1),
                Event::Failed { message } => self.at_top_collection(next + 1),
                _ => self.aborted(ImportError::UnexpectedEvent),
            },
            Phase::CommittingMedia { item } => match event {
                Event::MediaCommitted { metadata_id } => self.at_seen(item as int, 0, metadata_id),
                Event::Failed { message } => self.noting(
                    failure_of(
                        self.media[item as int],
                        ImportFailStep::MediaDetailsFromProvider,
                        message,
                    ),
                ).at_item(item + 1),
                _ => self.aborted(ImportError::UnexpectedEvent),
            },
            Phase::UpdatingProgress { item, entry, metadata_id } => match event {
                Event::Completed => self.at_seen(item as int, entry + 1, metadata_id),
                Event::Failed { message } => self.noting(
                    failure_of(
                        self.media[item as int],
                        ImportFailStep::SeenHistoryConversion,
                        message,
                    ),
                ).at_seen(item as int, entry + 1, metadata_id),
                _ => self.aborted(ImportError::UnexpectedEvent),
            },
            Phase::PostingReview { item, entry, metadata_id } => match event {
                Event::Completed => self.at_review(item as int, entry + 1, metadata_id),
                Event::Failed { message } => self.noting(
                    failure_of(self.media[item as int], ImportFailStep::ReviewConversion, message),
                ).at_review(item as int, entry + 1, metadata_id),
                _ => self.aborted(ImportError::UnexpectedEvent),
            },
            Phase::EnsuringCollection { item, entry, metadata_id } => match event {
                Event::Completed => self.in_phase(
                    Phase::AddingToCollection { item, entry, metadata_id },
                ),
                Event::Failed { message } => self.in_phase(
                    Phase::AddingToCollection { item, entry, metadata_id },
                ),
                _ => self.aborted(ImportError::UnexpectedEvent),
            },
            Phase::AddingToCollection { item, entry, metadata_id } => match event {
                Event::Completed => self.at_collection(item as int, entry + 1, metadata_id),
                Event::Failed { message } => self.at_collection(
                    item as int,
                    entry + 1,
                    metadata_id,
                ),
                _ => self.aborted(ImportError::UnexpectedEvent),
            },
            Phase::SavingReport => match event {
                Event::Completed => self.in_phase(Phase::RecalculatingSummary),
                Event::Failed { message } => self.aborted(ImportError::ReportNotSaved { message }),
                _ => self.aborted(ImportError::UnexpectedEvent),
            },
            Phase::SavingFailure => match event {
                Event::Completed => self.in_phase(Phase::Finished),
                Event::Failed { message } => self.aborted(ImportError::ReportNotSaved { message }),
                _ => self.aborted(ImportError::UnexpectedEvent),
            },
            Phase::RecalculatingSummary => match event {
                Event::Completed => self.in_phase(Phase::Finished),
                Event::Failed { message } => self.in_phase(Phase::Finished),
                _ => self.aborted(ImportError::UnexpectedEvent),
            },
            Phase::Finished => self,
            Phase::Aborted => self,
        }
    }

    /// Whether `next` is the run after `event` has answered the open
    /// request. When the source has been read, its items are taken over in
    /// descending order of activity, none lost and none added, and the
    /// import's own collections come first; in every other case the run
    /// that follows is `after(event)`.
    pub open spec fn steps_to(self, event: Event, next: RunModel) -> bool {
        if self.phase is RunningAdapter && event is AdapterFinished {
            let import = event->AdapterFinished_0;
            let taken = RunModel {
                collections: import.collections@,
                media: next.media,
                failed: import.failed_items@,
                ..self
            };
            &&& next.media.to_multiset() == import.media@.to_multiset()
            &&& next.media.len() == import.media@.len()
            &&& descending_by_activity(next.media)
            &&& next == taken.at_top_collection(0)
        } else {
            next == self.after(event)
        }
    }

    /// Whether `action` is the request that is open in this run.
    pub open spec fn requests(self, action: Action) -> bool {
        match self.phase {
            Phase::OpeningReport => action == (Action::StartImportJob {
                user_id: self.user_id,
                source: self.source,
            }),
            Phase::RunningAdapter => action == Action::RunAdapter(self.payload),
            Phase::CreatingCollection { next } => action == (Action::CreateOrUpdateCollection {
                user_id: self.user_id,
                input: self.collections[next as int],
            }),
            Phase::CommittingMedia { item } => match self.media[item as int].identifier {
                ImportOrExportItemIdentifier::NeedsDetails(identifier) => action == (
                Action::CommitMedia {
                    lot: self.media[item as int].lot,
                    source: self.media[item as int].source,
                    identifier,
                }),
                ImportOrExportItemIdentifier::AlreadyFilled(details) => action
                    == Action::CommitMediaInternal(details),
            },
            Phase::UpdatingProgress { item, entry, metadata_id } => action == (
            Action::ProgressUpdate {
                input: self.media[item as int].seen_history@[entry as int].progress_update_spec(
                    metadata_id,
                ),
                user_id: self.user_id,
            }),
            Phase::PostingReview { item, entry, metadata_id } => action == (Action::PostReview {
                user_id: self.user_id,
                input: self.media[item as int].reviews@[entry as int].post_review_spec(
                    metadata_id,
                ),
            }),
            Phase::EnsuringCollection { item, entry, metadata_id } => action == (
            Action::CreateOrUpdateCollection {
                user_id: self.user_id,
                input: CreateOrUpdateCollectionInput::named_spec(
                    self.media[item as int].collections@[entry as int],
                ),
            }),
            Phase::AddingToCollection { item, entry, metadata_id } => action == (
            Action::AddMediaToCollection {
                user_id: self.user_id,
                input: AddMediaToCollection {
                    collection_name: self.media[item as int].collections@[entry as int],
                    media_id: metadata_id,
                },
            }),
            Phase::SavingReport => {
                &&& action matches Action::SaveReport { report }
                &&& self.report matches Some(opened)
                &&& report.closes(opened, true, self.source, self.failed)
                &&& report.result matches Some(details)
                &&& details.import.total + self.failed.len() == self.media.len()
            },
            Phase::SavingFailure => {
                &&& action matches Action::SaveReport { report }
                &&& self.report matches Some(opened)
                &&& report.closes(opened, false, self.source, self.failed)
                &&& report.result matches Some(details)
                &&& details.import.total == 0
            },
            Phase::RecalculatingSummary => action == (Action::RecalculateSummary {
                user_id: self.user_id,
            }),
            Phase::Finished => action == Action::Done,
            Phase::Aborted => self.error matches Some(error) && action == Action::Abort(error),
        }
    }
}

impl Report {
    /// Whether this is the report `opened`, closed with the outcome
    /// `success` and a summary for `source` that lists `failed`.
    pub open spec fn closes(
        self,
        opened: Report,
        success: bool,
        source: MediaImportSource,
        failed: Seq<ImportFailedItem>,
    ) -> bool {
        &&& self.id == opened.id
        &&& self.user_id == opened.user_id
        &&& self.source == opened.source
        &&& self.started_on == opened.started_on
        &&& self.success == Some(success)
        &&& self.result matches Some(details)
        &&& details.source == source
        &&& details.failed_items@ == failed
    }
}

impl View for ImportRun {
    type V = RunModel;

    closed spec fn view(&self) -> RunModel {
        RunModel {
            user_id: self.user_id,
            source: self.source,
            payload: self.payload,
            phase: self.phase,
            report: self.report,
            collections: self.collections@,
            media: self.media@,
            failed: self.failed_items@,
            error: self.error,
        }
    }
}

impl RunModel {
    /// The run as it begins: nothing read, nothing noted, a report about to
    /// be opened.
    pub open spec fn beginning(
        user_id: i32,
        source: MediaImportSource,
        payload: SourceSpecificInput,
    ) -> RunModel {
        RunModel {
            user_id,
            source,
            payload,
            phase: Phase::OpeningReport,
            report: None,
            collections: Seq::empty(),
            media: Seq::empty(),
            failed: Seq::empty(),
            error: None,
        }
    }

    /// The report is open and nothing has gone wrong with the run itself.
    pub open spec fn under_way(self) -> bool {
        &&& self.collections.len() <= usize::MAX
        &&& self.media.len() <= usize::MAX
        &&& self.error is None
        &&& self.report matches Some(report)
        &&& report.is_running()
        &&& report.result is None
        &&& report.user_id == self.user_id
        &&& report.source == self.source
    }
}

impl ImportRun {
    /// Begins the import that `input` asks for on behalf of `user_id`. The
    /// request must carry what its source needs; nothing has been asked of
    /// anyone yet when this returns.
    pub fn begin(user_id: i32, input: DeployImportJobInput) -> (run: Result<ImportRun, ImportError>)
        ensures
            match run {
                Ok(run) => {
                    &&& input.payload_spec() matches Some(payload)
                    &&& run@ == RunModel::beginning(user_id, input.source, payload)
                    &&& run@.wf()
                },
                Err(error) => input.payload_spec() is None && error == ImportError::MissingPayload,
            },
    {
        let source = input.source;
        match input.into_payload() {
            Ok(payload) => Ok(
                ImportRun {
                    user_id,
                    source,
                    payload,
                    phase: Phase::OpeningReport,
                    report: None,
                    collections: Vec::new(),
                    media: Vec::new(),
                    failed_items: Vec::new(),
                    error: None,
                },
            ),
            Err(error) => Err(error),
        }
    }

    /// Where the run stands.
    pub fn phase(&self) -> (phase: Phase)
        ensures
            phase == self@.phase,
    {
        self.phase
    }

    /// Whether the import is over, one way or the other.
    pub fn is_over(&self) -> (over: bool)
        ensures
            over == self@.is_over(),
    {
        match self.phase {
            Phase::Finished => true,
            Phase::Aborted => true,
            _ => false,
        }
    }

    /// The user for whom the import runs.
    pub fn user_id(&self) -> (user_id: i32)
        ensures
            user_id == self@.user_id,
    {
        self.user_id
    }

    /// The source that is imported from.
    pub fn source(&self) -> (source: MediaImportSource)
        ensures
            source == self@.source,
    {
        self.source
    }

    /// The report of the import as it was opened, once it has been opened.
    pub fn report(&self) -> (report: &Option<Report>)
        ensures
            *report == self@.report,
    {
        &self.report
    }

    /// The import's own collections, in the order in which they are created.
    pub fn collections(&self) -> (collections: &Vec<CreateOrUpdateCollectionInput>)
        ensures
            collections@ == self@.collections,
    {
        &self.collections
    }

    /// The items of the import, in the order in which they are dealt with.
    pub fn media(&self) -> (media: &Vec<ImportOrExportItem>)
        ensures
            media@ == self@.media,
    {
        &self.media
    }

    /// The failures noted so far, oldest first.
    pub fn failed_items(&self) -> (failed: &Vec<ImportFailedItem>)
        ensures
            failed@ == self@.failed,
    {
        &self.failed_items
    }

    fn abort(&mut self, error: ImportError)
        requires
            old(self)@.wf(),
        ensures
            final(self)@ == old(self)@.aborted(error),
            final(self)@.wf(),
    {
        self.phase = Phase::Aborted;
        self.error = Some(error);
    }

    fn note_failure(&mut self, item: usize, step: ImportFailStep, message: String)
        requires
            item < old(self)@.media.len(),
        ensures
            final(self)@ == old(self)@.noting(failure_of(old(self)@.media[item as int], step, message)),
    {
        let subject = &self.media[item];
        let failure = ImportFailedItem {
            lot: subject.lot,
            step,
            identifier: subject.source_id.clone(),
            error: Some(message),
        };
        self.failed_items.push(failure);
    }

    fn go_to_end(&mut self)
        requires
            old(self)@.under_way(),
        ensures
            final(self)@ == old(self)@.at_end(),
            final(self)@.wf(),
    {
        if self.failed_items.len() <= self.media.len() {
            self.phase = Phase::SavingReport;
        } else {
            self.phase = Phase::Aborted;
            self.error = Some(ImportError::MoreFailuresThanItems);
        }
    }

    fn go_to_item(&mut self, item: usize)
        requires
            old(self)@.under_way(),
        ensures
            final(self)@ == old(self)@.at_item(item as int),
            final(self)@.wf(),
    {
        if item < self.media.len() {
            self.phase = Phase::CommittingMedia { item };
        } else {
            self.go_to_end();
        }
    }

    fn go_to_collection(&mut self, item: usize, entry: usize, metadata_id: i32)
        requires
            old(self)@.under_way(),
            item < old(self)@.media.len(),
        ensures
            final(self)@ == old(self)@.at_collection(item as int, entry as int, metadata_id),
            final(self)@.wf(),
    {
        if entry < self.media[item].collections.len() {
            self.phase = Phase::EnsuringCollection { item, entry, metadata_id };
        } else {
            assert(self.media@.len() == self.media.len());
            self.go_to_item(item + 1);
        }
    }

    fn go_to_review(&mut self, item: usize, from: usize, metadata_id: i32)
        requires
            old(self)@.under_way(),
            item < old(self)@.media.len(),
        ensures
            final(self)@ == old(self)@.at_review(item as int, from as int, metadata_id),
            final(self)@.wf(),
    {
        let count = self.media[item].reviews.len();
        let mut entry: usize = from;
        while entry < count && !self.media[item].reviews[entry].has_content()
            invariant
                self@ == old(self)@,
                item < self@.media.len(),
                count == self@.media[item as int].reviews@.len(),
                from <= entry,
                next_review(self@.media[item as int].reviews@, entry as int) == next_review(
                    self@.media[item as int].reviews@,
                    from as int,
                ),
            decreases count - entry,
        {
            entry = entry + 1;
        }
        if entry < count {
            self.phase = Phase::PostingReview { item, entry, metadata_id };
        } else {
            self.go_to_collection(item, 0, metadata_id);
        }
    }

    fn go_to_seen(&mut self, item: usize, entry: usize, metadata_id: i32)
        requires
            old(self)@.under_way(),
            item < old(self)@.media.len(),
        ensures
            final(self)@ == old(self)@.at_seen(item as int, entry as int, metadata_id),
            final(self)@.wf(),
    {
        if entry < self.media[item].seen_history.len() {
            self.phase = Phase::UpdatingProgress { item, entry, metadata_id };
        } else {
            self.go_to_review(item, 0, metadata_id);
        }
    }

    fn go_to_top_collection(&mut self, next: usize)
        requires
            old(self)@.under_way(),
        ensures
            final(self)@ == old(self)@.at_top_collection(next as int),
            final(self)@.wf(),
    {
        if next < self.collections.len() {
            self.phase = Phase::CreatingCollection { next };
        } else {
            self.go_to_item(0);
        }
    }

    fn take_over(&mut self, import: ImportResult)
        requires
            old(self)@.wf(),
            old(self)@.phase is RunningAdapter,
        ensures
            old(self)@.steps_to(Event::AdapterFinished(import), final(self)@),
            final(self)@.wf(),
    {
        self.collections = import.collections;
        self.media = most_active_first(import.media);
        self.failed_items = import.failed_items;
        assert(self.collections@.len() == self.collections.len());
        assert(self.media@.len() == self.media.len());
        self.go_to_top_collection(0);
    }

    /// Takes the answer to the open request and moves on to the next one.
    /// A failure to resolve an item is noted and the item is left; a failure
    /// to record a viewing or to store a review is noted and the next entry
    /// follows; what happens to a collection changes nothing. Once the
    /// import is over, nothing changes any more.
    pub fn advance(&mut self, event: Event)
        requires
            old(self)@.wf(),
        ensures
            old(self)@.steps_to(event, final(self)@),
            final(self)@.wf(),
    {
        proof {
            assert(self.collections@.len() == self.collections.len());
            assert(self.media@.len() == self.media.len());
            match self.phase {
                Phase::UpdatingProgress { item, .. } => lengths_fit(self.media@[item as int]),
                Phase::PostingReview { item, .. } => lengths_fit(self.media@[item as int]),
                Phase::AddingToCollection { item, .. } => lengths_fit(self.media@[item as int]),
                _ => {},
            }
        }
        match self.phase {
            Phase::OpeningReport => match event {
                Event::ReportStarted { id, started_on } => {
                    self.report = Some(Report::start(id, self.user_id, self.source, started_on));
                    self.phase = Phase::RunningAdapter;
                },
                Event::Failed { message } => self.abort(ImportError::ReportNotStarted { message }),
                _ => self.abort(ImportError::UnexpectedEvent),
            },
            Phase::RunningAdapter => match event {
                Event::AdapterFinished(import) => self.take_over(import),
                Event::AdapterFailed(error) => {
                    let mut failed: Vec<ImportFailedItem> = Vec::new();
                    failed.push(error.into_failed_item());
                    self.failed_items = failed;
                    self.phase = Phase::SavingFailure;
                },
                _ => self.abort(ImportError::UnexpectedEvent),
            },
            Phase::CreatingCollection { next } => match event {
                Event::Completed => self.go_to_top_collection(next + 1),
                Event::Failed { message } => self.go_to_top_collection(next + 1),
                _ => self.abort(ImportError::UnexpectedEvent),
            },
            Phase::CommittingMedia { item } => match event {
                Event::MediaCommitted { metadata_id } => self.go_to_seen(item, 0, metadata_id),
                Event::Failed { message } => {
                    self.note_failure(item, ImportFailStep::MediaDetailsFromProvider, message);
                    self.go_to_item(item + 1);
                },
                _ => self.abort(ImportError::UnexpectedEvent),
            },
            Phase::UpdatingProgress { item, entry, metadata_id } => match event {
                Event::Completed => self.go_to_seen(item, entry + 1, metadata_id),
                Event::Failed { message } => {
                    self.note_failure(item, ImportFailStep::SeenHistoryConversion, message);
                    self.go_to_seen(item, entry + 1, metadata_id);
                },
                _ => self.abort(ImportError::UnexpectedEvent),
            },
            Phase::PostingReview { item, entry, metadata_id } => match event {
                Event::Completed => self.go_to_review(item, entry + 1, metadata_id),
                Event::Failed { message } => {
                    self.note_failure(item, ImportFailStep::ReviewConversion, message);
                    self.go_to_review(item, entry + 1, metadata_id);
                },
                _ => self.abort(ImportError::UnexpectedEvent),
            },
            Phase::EnsuringCollection { item, entry, metadata_id } => match event {
                Event::Completed => {
                    self.phase = Phase::AddingToCollection { item, entry, metadata_id };
                },
                Event::Failed { message } => {
                    self.phase = Phase::AddingToCollection { item, entry, metadata_id };
                },
                _ => self.abort(ImportError::UnexpectedEvent),
            },
            Phase::AddingToCollection { item, entry, metadata_id } => match event {
                Event::Completed => self.go_to_collection(item, entry + 1, metadata_id),
                Event::Failed { message } => self.go_to_collection(item, entry + 1, metadata_id),
                _ => self.abort(ImportError::UnexpectedEvent),
            },
            Phase::SavingReport => match event {
                Event::Completed => {
                    self.phase = Phase::RecalculatingSummary;
                },
                Event::Failed { message } => self.abort(ImportError::ReportNotSaved { message }),
                _ => self.abort(ImportError::UnexpectedEvent),
            },
            Phase::SavingFailure => match event {
                Event::Completed => {
                    self.phase = Phase::Finished;
                },
                Event::Failed { message } => self.abort(ImportError::ReportNotSaved { message }),
                _ => self.abort(ImportError::UnexpectedEvent),
            },
            Phase::RecalculatingSummary => match event {
                Event::Completed => {
                    self.phase = Phase::Finished;
                },
                Event::Failed { message } => {
                    self.phase = Phase::Finished;
                },
                _ => self.abort(ImportError::UnexpectedEvent),
            },
            Phase::Finished => {},
            Phase::Aborted => {},
        }
    }
}

impl ImportRun {
    fn closed_report(&self, success: bool, details: ImportResultResponse) -> (report: Report)
        requires
            self@.report is Some,
            self@.report->0.is_running(),
            details.source == self@.source,
            details.failed_items@ == self@.failed,
        ensures
            report.closes(self@.report->0, success, self@.source, self@.failed),
            report.result == Some(details),
    {
        match &self.report {
            Some(opened) => {
                let mut report = Report::start(
                    opened.id,
                    opened.user_id,
                    opened.source,
                    opened.started_on,
                );
                report.finish(success, details);
                report
            },
            None => Report::start(0, self.user_id, self.source, Timestamp::new(0, 0)),
        }
    }

    fn failures_so_far(&self) -> (failed: Vec<ImportFailedItem>)
        ensures
            failed@ == self@.failed,
    {
        let failed = self.failed_items.clone();
        assert(failed@ =~= self.failed_items@);
        failed
    }

    /// The request that is open: what the caller is to do next, with
    /// everything that the call needs. A reconciled import asks for its
    /// report to be closed as a success, with the count of the items that
    /// came through; an import whose source failed asks for its report to be
    /// closed as a failure that lists that one failure.
    pub fn request(&self) -> (action: Action)
        requires
            self@.wf(),
        ensures
            self@.requests(action),
    {
        match self.phase {
            Phase::OpeningReport => Action::StartImportJob {
                user_id: self.user_id,
                source: self.source,
            },
            Phase::RunningAdapter => Action::RunAdapter(self.payload.clone()),
            Phase::CreatingCollection { next } => Action::CreateOrUpdateCollection {
                user_id: self.user_id,
                input: self.collections[next].clone(),
            },
            Phase::CommittingMedia { item } => {
                let subject = &self.media[item];
                match &subject.identifier {
                    ImportOrExportItemIdentifier::NeedsDetails(identifier) => Action::CommitMedia {
                        lot: subject.lot,
                        source: subject.source,
                        identifier: identifier.clone(),
                    },
                    ImportOrExportItemIdentifier::AlreadyFilled(details) => {
                        Action::CommitMediaInternal(details.clone())
                    },
                }
            },
            Phase::UpdatingProgress { item, entry, metadata_id } => Action::ProgressUpdate {
                input: self.media[item].seen_history[entry].progress_update(metadata_id),
                user_id: self.user_id,
            },
            Phase::PostingReview { item, entry, metadata_id } => Action::PostReview {
                user_id: self.user_id,
                input: self.media[item].reviews[entry].post_review_input(metadata_id),
            },
            Phase::EnsuringCollection { item, entry, metadata_id } => {
                Action::CreateOrUpdateCollection {
                    user_id: self.user_id,
                    input: CreateOrUpdateCollectionInput::named(
                        &self.media[item].collections[entry],
                    ),
                }
            },
            Phase::AddingToCollection { item, entry, metadata_id } => Action::AddMediaToCollection {
                user_id: self.user_id,
                input: AddMediaToCollection {
                    collection_name: self.media[item].collections[entry].clone(),
                    media_id: metadata_id,
                },
            },
            Phase::SavingReport => {
                let summary = ImportResultResponse::summarize(
                    self.source,
                    self.media.len(),
                    self.failures_so_far(),
                );
                match summary {
                    Some(details) => Action::SaveReport {
                        report: self.closed_report(true, details),
                    },
                    None => Action::Abort(ImportError::MoreFailuresThanItems),
                }
            },
            Phase::SavingFailure => {
                let details = ImportResultResponse {
                    source: self.source,
                    import: ImportDetails { total: 0 },
                    failed_items: self.failures_so_far(),
                };
                Action::SaveReport { report: self.closed_report(false, details) }
            },
            Phase::RecalculatingSummary => Action::RecalculateSummary { user_id: self.user_id },
            Phase::Finished => Action::Done,
            Phase::Aborted => match &self.error {
                Some(error) => Action::Abort(error.clone()),
                None => Action::Done,
            },
        }
    }

    /// Takes the answer to the open request, moves on, and hands back the
    /// request that is open now.
    pub fn step(&mut self, event: Event) -> (action: Action)
        requires
            old(self)@.wf(),
        ensures
            old(self)@.steps_to(event, final(self)@),
            final(self)@.wf(),
            final(self)@.requests(action),
    {
        self.advance(event);
        self.request()
    }
}

} // verus!
