//! What holds of every import, whatever the catalog answers.

use vstd::prelude::*;
use crate::importer::report::Report;
use crate::importer::run::{
    failure_of, lengths_fit, next_review, Action, Event, Phase, RunModel,
};
use crate::importer::{ImportFailStep, ImportResultResponse};
use crate::models::ImportOrExportItemRating;
use crate::time::Timestamp;

verus! {

/// How far a run has come: the stage of the import, then the item, then the
/// part of the item, then the entry within that part.
pub open spec fn position(phase: Phase) -> (int, int, int, int) {
    match phase {
        Phase::OpeningReport => (0, 0, 0, 0),
        Phase::RunningAdapter => (1, 0, 0, 0),
        Phase::CreatingCollection { next } => (2, next as int, 0, 0),
        Phase::CommittingMedia { item } => (3, item as int, 0, 0),
        Phase::UpdatingProgress { item, entry, metadata_id } => (3, item as int, 1, entry as int),
        Phase::PostingReview { item, entry, metadata_id } => (3, item as int, 2, entry as int),
        Phase::EnsuringCollection { item, entry, metadata_id } => (3, item as int, 3, 2 * entry),
        Phase::AddingToCollection { item, entry, metadata_id } => (
            3,
            item as int,
            3,
            2 * entry + 1,
        ),
        Phase::SavingReport => (4, 0, 0, 0),
        Phase::SavingFailure => (4, 0, 0, 0),
        Phase::RecalculatingSummary => (5, 0, 0, 0),
        Phase::Finished => (6, 0, 0, 0),
        Phase::Aborted => (6, 0, 0, 0),
    }
}

/// The first position comes strictly before the second.
pub open spec fn comes_before(a: (int, int, int, int), b: (int, int, int, int)) -> bool {
    ||| a.0 < b.0
    ||| a.0 == b.0 && a.1 < b.1
    ||| a.0 == b.0 && a.1 == b.1 && a.2 < b.2
    ||| a.0 == b.0 && a.1 == b.1 && a.2 == b.2 && a.3 < b.3
}

/// The search for the next review to store never goes backwards, stays
/// within the reviews, and passes over nothing but reviews that have
/// nothing to store.
pub proof fn next_review_skips_only_empty(reviews: Seq<ImportOrExportItemRating>, from: int)
    requires
        0 <= from <= reviews.len(),
    ensures
        from <= next_review(reviews, from) <= reviews.len(),
        next_review(reviews, from) < reviews.len() ==> reviews[next_review(
            reviews,
            from,
        )].has_content_spec(),
        forall|k: int| from <= k < next_review(reviews, from) ==> !reviews[k].has_content_spec(),
    decreases reviews.len() - from,
{
    if from < reviews.len() && !reviews[from].has_content_spec() {
        next_review_skips_only_empty(reviews, from + 1);
    }
}

/// A report takes one outcome and keeps it: a second attempt to close it
/// changes nothing, and neither does the sweep, whenever it comes.
pub proof fn closed_report_stays_as_it_is(
    report: Report,
    success: bool,
    details: ImportResultResponse,
    again: bool,
    other: ImportResultResponse,
    now: Timestamp,
)
    ensures
        !report.closed_with(success, details).is_running(),
        report.closed_with(success, details).closed_with(again, other) == report.closed_with(
            success,
            details,
        ),
        report.closed_with(success, details).swept(now) == report.closed_with(success, details),
        !report.is_running() ==> report.closed_with(success, details) == report && report.swept(
            now,
        ) == report,
{
}

/// The sweep closes a running report exactly when more than twenty-four
/// hours have passed since it began; what it has closed stays failed, and a
/// later attempt to close it with an outcome changes nothing. Run again at
/// the same time, the sweep changes nothing.
pub proof fn sweep_closes_stale_reports_for_good(
    report: Report,
    now: Timestamp,
    success: bool,
    details: ImportResultResponse,
)
    ensures
        report.is_stale(now) ==> report.swept(now).success == Some(false),
        report.is_stale(now) ==> report.swept(now).closed_with(success, details) == report.swept(
            now,
        ),
        !report.is_stale(now) ==> report.swept(now) == report,
        report.swept(now).swept(now) == report.swept(now),
{
}

/// Every answer moves a run that is not over strictly forward: through the
/// stages of the import, through the items in their order, and within an
/// item from resolving it through its viewings and reviews to its
/// collections. So no request is made twice, the import's own collections
/// are created before any item is touched, and the report is written after
/// the last item.
pub proof fn every_step_moves_forward(run: RunModel, event: Event, next: RunModel)
    requires
        run.wf(),
        !run.is_over(),
        run.steps_to(event, next),
    ensures
        comes_before(position(run.phase), position(next.phase)),
{
    match run.phase {
        Phase::CommittingMedia { item } => {
            lengths_fit(run.media[item as int]);
            next_review_skips_only_empty(run.media[item as int].reviews@, 0);
        },
        Phase::UpdatingProgress { item, entry, metadata_id } => {
            lengths_fit(run.media[item as int]);
            next_review_skips_only_empty(run.media[item as int].reviews@, 0);
        },
        Phase::PostingReview { item, entry, metadata_id } => {
            lengths_fit(run.media[item as int]);
            next_review_skips_only_empty(run.media[item as int].reviews@, entry + 1);
        },
        Phase::AddingToCollection { item, entry, metadata_id } => {
            lengths_fit(run.media[item as int]);
        },
        _ => {},
    }
}

/// Once a run is over, no answer changes it.
pub proof fn finished_run_stays_as_it_is(run: RunModel, event: Event, next: RunModel)
    requires
        run.is_over(),
        run.steps_to(event, next),
    ensures
        next == run,
{
}

/// The report is asked to be written only at the end of an import, and the
/// run leaves that stage with the answer: a run asks for one write of its
/// report at most.
pub proof fn report_is_written_once(run: RunModel, action: Action, event: Event, next: RunModel)
    requires
        run.wf(),
        run.requests(action),
        action is SaveReport,
        run.steps_to(event, next),
    ensures
        run.phase is SavingReport || run.phase is SavingFailure,
        action matches Action::SaveReport { report } && report.success is Some,
        next.phase is RecalculatingSummary || next.phase is Finished || next.phase is Aborted,
{
}

/// The report of a reconciled import is closed as a success, and the count
/// it shows and the failures it lists add up to the items that were read.
pub proof fn total_and_failures_cover_every_item(run: RunModel, action: Action)
    requires
        run.wf(),
        run.phase is SavingReport,
        run.requests(action),
    ensures
        ({
            &&& action matches Action::SaveReport { report }
            &&& report.success == Some(true)
            &&& report.result matches Some(details)
            &&& details.import.total + details.failed_items@.len() == run.media.len()
        }),
{
}

/// The failures noted only grow: whatever the answer, what was noted
/// before stays where it was. While the items are dealt with, an answer
/// adds one failure or none.
pub proof fn failures_only_grow(run: RunModel, event: Event, next: RunModel)
    requires
        run.wf(),
        run.steps_to(event, next),
    ensures
        run.failed.len() <= next.failed.len(),
        next.failed.subrange(0, run.failed.len() as int) == run.failed,
        !(run.phase is RunningAdapter) ==> next.failed.len() <= run.failed.len() + 1,
{
    assert(next.failed.subrange(0, run.failed.len() as int) =~= run.failed);
}

/// A failure that is noted while the items are dealt with names the item
/// that was being dealt with, by the identifier the source gave it, and is
/// filed under the step that failed.
pub proof fn noted_failure_names_its_item(run: RunModel, event: Event, next: RunModel)
    requires
        run.wf(),
        !(run.phase is RunningAdapter),
        run.steps_to(event, next),
        next.failed != run.failed,
    ensures
        event is Failed,
        position(run.phase).0 == 3,
        next.failed.last() == failure_of(
            run.media[position(run.phase).1],
            match run.phase {
                Phase::CommittingMedia { .. } => ImportFailStep::MediaDetailsFromProvider,
                Phase::UpdatingProgress { .. } => ImportFailStep::SeenHistoryConversion,
                _ => ImportFailStep::ReviewConversion,
            },
            event->message,
        ),
        run.phase is CommittingMedia || run.phase is UpdatingProgress || run.phase
            is PostingReview,
{
    assert(run.failed.push(next.failed.last()).len() == run.failed.len() + 1);
}

/// The items are put in order once, when the source has been read, and stay
/// in that order.
pub proof fn items_keep_their_order(run: RunModel, event: Event, next: RunModel)
    requires
        !(run.phase is RunningAdapter),
        run.steps_to(event, next),
    ensures
        next.media == run.media,
        next.collections == run.collections,
{
}

/// A review is asked to be stored only if it has a rating or a text, and a
/// failure to store a review is noted only for such a review: one with
/// neither leaves no request and no failure behind.
pub proof fn empty_review_leaves_no_trace(run: RunModel, action: Action, event: Event, next: RunModel)
    requires
        run.wf(),
        run.requests(action),
        run.steps_to(event, next),
    ensures
        action matches Action::PostReview { input, .. } ==> (input.rating is Some || input.text
            is Some),
        next.failed != run.failed && next.failed.last().step == ImportFailStep::ReviewConversion
            && !(run.phase is RunningAdapter) ==> run.phase is PostingReview
            && run.media[position(run.phase).1].reviews@[position(
            run.phase,
        ).3].has_content_spec(),
{
    if next.failed != run.failed && !(run.phase is RunningAdapter) {
        noted_failure_names_its_item(run, event, next);
    }
}

/// When an item cannot be resolved, the failure is noted and the run turns
/// to the next item, or to the end of the import if it was the last:
/// nothing is asked for the item's viewings, reviews or collections.
pub proof fn unresolved_item_is_left(run: RunModel, item: usize, message: String, next: RunModel)
    requires
        run.wf(),
        run.phase == (Phase::CommittingMedia { item }),
        run.steps_to(Event::Failed { message }, next),
    ensures
        next.failed == run.failed.push(
            failure_of(run.media[item as int], ImportFailStep::MediaDetailsFromProvider, message),
        ),
        item + 1 < run.media.len() ==> next.phase == (Phase::CommittingMedia {
            item: (item + 1) as usize,
        }),
        item + 1 >= run.media.len() ==> next.phase is SavingReport || next.phase is Aborted,
{
}

/// A run that is well formed stays so, whatever answers it.
pub proof fn step_keeps_well_formed(run: RunModel, event: Event, next: RunModel)
    requires
        run.wf(),
        run.steps_to(event, next),
    ensures
        next.wf(),
{
    match run.phase {
        Phase::RunningAdapter => {
            if event is AdapterFinished {
                let import = event->AdapterFinished_0;
                assert(import.media@.len() == import.media.len());
                assert(import.collections@.len() == import.collections.len());
            }
        },
        Phase::CommittingMedia { item } => {
            lengths_fit(run.media[item as int]);
            next_review_skips_only_empty(run.media[item as int].reviews@, 0);
        },
        Phase::UpdatingProgress { item, entry, metadata_id } => {
            lengths_fit(run.media[item as int]);
            next_review_skips_only_empty(run.media[item as int].reviews@, 0);
        },
        Phase::PostingReview { item, entry, metadata_id } => {
            lengths_fit(run.media[item as int]);
            next_review_skips_only_empty(run.media[item as int].reviews@, entry + 1);
        },
        Phase::AddingToCollection { item, entry, metadata_id } => {
            lengths_fit(run.media[item as int]);
        },
        _ => {},
    }
}

/// The course of an import: the runs it went through, each following from
/// the one before by the answer between them.
pub open spec fn is_course(runs: Seq<RunModel>, answers: Seq<Event>) -> bool {
    &&& runs.len() == answers.len() + 1
    &&& forall|i: int| 0 <= i < answers.len() ==> (#[trigger] runs[i]).steps_to(answers[i], runs[i + 1])
}

/// The report is being written in this run.
pub open spec fn is_saving(run: RunModel) -> bool {
    run.phase is SavingReport || run.phase is SavingFailure
}

/// Every run in the course of an import is well formed, if the first is.
pub proof fn course_stays_well_formed(runs: Seq<RunModel>, answers: Seq<Event>, k: int)
    requires
        is_course(runs, answers),
        runs[0].wf(),
        0 <= k < runs.len(),
    ensures
        runs[k].wf(),
    decreases k,
{
    if k > 0 {
        course_stays_well_formed(runs, answers, k - 1);
        assert(runs[k - 1].steps_to(answers[k - 1], runs[k]));
        step_keeps_well_formed(runs[k - 1], answers[k - 1], runs[k]);
    }
}

/// In the course of an import the report is written at one point at most:
/// once a run has asked for it, no later run asks again.
pub proof fn report_is_written_at_one_point(
    runs: Seq<RunModel>,
    answers: Seq<Event>,
    i: int,
    j: int,
)
    requires
        is_course(runs, answers),
        runs[0].wf(),
        0 <= i < j < runs.len(),
        is_saving(runs[i]),
    ensures
        !is_saving(runs[j]),
        position(runs[j].phase).0 > 4,
    decreases j - i,
{
    course_stays_well_formed(runs, answers, j - 1);
    assert(runs[j - 1].steps_to(answers[j - 1], runs[j]));
    if j - 1 > i {
        report_is_written_at_one_point(runs, answers, i, j - 1);
        if runs[j - 1].is_over() {
            finished_run_stays_as_it_is(runs[j - 1], answers[j - 1], runs[j]);
        } else {
            every_step_moves_forward(runs[j - 1], answers[j - 1], runs[j]);
        }
    } else {
        every_step_moves_forward(runs[j - 1], answers[j - 1], runs[j]);
    }
}

/// An import that has come to its end has had its report written: at some
/// point of its course the run asked for it. Together with the law before
/// this one, the report of a finished import is written exactly once.
pub proof fn finished_import_wrote_its_report(runs: Seq<RunModel>, answers: Seq<Event>, k: int)
    requires
        is_course(runs, answers),
        runs[0].phase is OpeningReport,
        0 <= k < runs.len(),
        runs[k].phase is Finished || runs[k].phase is RecalculatingSummary,
    ensures
        exists|i: int| 0 <= i < k && is_saving(#[trigger] runs[i]),
    decreases k,
{
    assert(k > 0);
    assert(runs[k - 1].steps_to(answers[k - 1], runs[k]));
    if is_saving(runs[k - 1]) {
    } else {
        assert(runs[k - 1].phase is Finished || runs[k - 1].phase is RecalculatingSummary);
        finished_import_wrote_its_report(runs, answers, k - 1);
        let i = choose|i: int| 0 <= i < k - 1 && is_saving(#[trigger] runs[i]);
        assert(0 <= i < k && is_saving(runs[i]));
    }
}

} // verus!
