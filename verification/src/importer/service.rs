//! The entry points of the import service: accepting a request, beginning
//! its execution, and sweeping up imports that never ended.

use vstd::prelude::*;
use crate::background::ImportMedia;
use crate::importer::report::Report;
use crate::importer::run::{Action, ImportRun, RunModel};
use crate::models::MediaImportSource;
use crate::importer::{DeployImportJobInput, DeployMediaTrackerImportInput, ImportError};
use crate::time::Timestamp;

verus! {

/// The import service. It keeps nothing between calls: what it decides
/// depends on what it is handed.
#[derive(Clone, Copy, Debug, PartialEq, Eq, Structural)]
pub struct ImporterService;

/// The queries on imports that the API offers.
#[derive(Clone, Copy, Debug, PartialEq, Eq, Structural)]
pub struct ImporterQuery;

/// The changes to imports that the API offers.
#[derive(Clone, Copy, Debug, PartialEq, Eq, Structural)]
pub struct ImporterMutation;

impl Default for ImporterQuery {
    fn default() -> (query: ImporterQuery)
        ensures
            query == ImporterQuery,
    {
        ImporterQuery
    }
}

impl Default for ImporterMutation {
    fn default() -> (mutation: ImporterMutation)
        ensures
            mutation == ImporterMutation,
    {
        ImporterMutation
    }
}

/// `url` without the slashes at its end.
pub open spec fn without_trailing_slashes(url: Seq<char>) -> Seq<char>
    decreases url.len(),
{
    if url.len() > 0 && url.last() == '/' {
        without_trailing_slashes(url.drop_last())
    } else {
        url
    }
}

/// The identifiers of the stale reports among `jobs`, in the order of
/// `jobs`.
pub open spec fn stale_ids(jobs: Seq<Report>, now: Timestamp) -> Seq<i32> {
    jobs.filter(|job: Report| job.is_stale(now)).map_values(|job: Report| job.id)
}

/// `str::trim_end_matches` of std with the pattern `'/'`, and `to_owned` on
/// the slice it returns: the text with every slash at its end removed, and
/// nothing else changed.
#[verifier::external_body]
fn trim_trailing_slashes(url: &String) -> (trimmed: String)
    ensures
        trimmed@ == without_trailing_slashes(url@),
{
    url.trim_end_matches('/').to_owned()
}

/// What is left of a url does not end in a slash, and is the url's
/// beginning.
pub proof fn trimmed_url_is_prefix_without_slash(url: Seq<char>)
    ensures
        without_trailing_slashes(url).len() <= url.len(),
        without_trailing_slashes(url) == url.subrange(
            0,
            without_trailing_slashes(url).len() as int,
        ),
        without_trailing_slashes(url).len() > 0 ==> without_trailing_slashes(url).last() != '/',
        forall|i: int|
            without_trailing_slashes(url).len() <= i < url.len() ==> url[i] == '/',
    decreases url.len(),
{
    if url.len() > 0 && url.last() == '/' {
        trimmed_url_is_prefix_without_slash(url.drop_last());
        let kept = without_trailing_slashes(url);
        assert(kept =~= url.subrange(0, kept.len() as int));
        assert forall|i: int| kept.len() <= i < url.len() implies url[i] == '/' by {
            if i < url.len() - 1 {
                assert(url.drop_last()[i] == url[i]);
            }
        }
    } else {
        assert(url =~= url.subrange(0, url.len() as int));
    }
}

impl DeployImportJobInput {
    /// Whether this is the request `given` as it is queued: the same in
    /// everything, but for the base url of a MediaTracker instance, which
    /// has lost the slashes at its end.
    pub open spec fn is_normal_form_of(self, given: DeployImportJobInput) -> bool {
        &&& self.source == given.source
        &&& self.goodreads == given.goodreads
        &&& self.trakt == given.trakt
        &&& self.movary == given.movary
        &&& self.story_graph == given.story_graph
        &&& self.media_json == given.media_json
        &&& match given.media_tracker {
            Some(instance) => {
                &&& self.media_tracker matches Some(kept)
                &&& kept.api_key == instance.api_key
                &&& kept.api_url@ == without_trailing_slashes(instance.api_url@)
            },
            None => self.media_tracker is None,
        }
    }

    /// The request as it is queued: the base url of a MediaTracker instance
    /// loses the slashes at its end, everything else stays.
    pub fn normalize(self) -> (normal: DeployImportJobInput)
        ensures
            normal.is_normal_form_of(self),
    {
        let media_tracker = match self.media_tracker {
            Some(instance) => Some(
                DeployMediaTrackerImportInput {
                    api_url: trim_trailing_slashes(&instance.api_url),
                    api_key: instance.api_key,
                },
            ),
            None => None,
        };
        DeployImportJobInput {
            source: self.source,
            media_tracker,
            goodreads: self.goodreads,
            trakt: self.trakt,
            movary: self.movary,
            story_graph: self.story_graph,
            media_json: self.media_json,
        }
    }

    /// Whether the request carries what its source needs.
    pub fn has_payload(&self) -> (present: bool)
        ensures
            present == self.payload_spec() is Some,
    {
        match self.source {
            MediaImportSource::MediaTracker => self.media_tracker.is_some(),
            MediaImportSource::Goodreads => self.goodreads.is_some(),
            MediaImportSource::Trakt => self.trakt.is_some(),
            MediaImportSource::Movary => self.movary.is_some(),
            MediaImportSource::StoryGraph => self.story_graph.is_some(),
            MediaImportSource::MediaJson => self.media_json.is_some(),
        }
    }
}

impl ImporterService {
    /// The service; there is nothing to set up.
    pub fn new() -> (service: ImporterService) {
        ImporterService
    }

    /// Accepts a request to import: the job to put on the queue, for
    /// `user_id` and with the request in its normal form. A request that
    /// does not carry what its source needs is refused, and nothing is to be
    /// queued.
    pub fn deploy_import_job(&self, user_id: i32, input: DeployImportJobInput) -> (job: Result<
        ImportMedia,
        ImportError,
    >)
        ensures
            match job {
                Ok(job) => {
                    &&& input.payload_spec() is Some
                    &&& job.user_id == user_id
                    &&& job.input.is_normal_form_of(input)
                },
                Err(error) => input.payload_spec() is None && error == ImportError::MissingPayload,
            },
    {
        if input.has_payload() {
            Ok(ImportMedia { user_id, input: input.normalize() })
        } else {
            Err(ImportError::MissingPayload)
        }
    }

    /// Sweeps over `jobs` at `now`: every report that is still running more
    /// than twenty-four hours after it began is closed as failed, every
    /// other report is left as it is. The identifiers of the reports that
    /// were closed come back, in the order of `jobs`.
    pub fn invalidate_import_jobs(&self, jobs: &mut Vec<Report>, now: &Timestamp) -> (invalidated:
        Vec<i32>)
        ensures
            final(jobs)@.len() == old(jobs)@.len(),
            forall|i: int|
                0 <= i < old(jobs)@.len() ==> final(jobs)@[i] == old(jobs)@[i].swept(*now),
            invalidated@ == stale_ids(old(jobs)@, *now),
    {
        let mut invalidated: Vec<i32> = Vec::new();
        let mut i: usize = 0;
        assert(old(jobs)@.take(0) =~= Seq::<Report>::empty());
        assert(stale_ids(Seq::<Report>::empty(), *now) =~= Seq::<i32>::empty()) by {
            reveal(Seq::filter);
        }
        while i < jobs.len()
            invariant
                i <= jobs@.len(),
                jobs@.len() == old(jobs)@.len(),
                forall|k: int| 0 <= k < i ==> jobs@[k] == old(jobs)@[k].swept(*now),
                forall|k: int| i <= k < jobs@.len() ==> jobs@[k] == old(jobs)@[k],
                invalidated@ == stale_ids(old(jobs)@.take(i as int), *now),
            decreases jobs@.len() - i,
        {
            let ghost seen = old(jobs)@.take(i as int);
            let ghost job = old(jobs)@[i as int];
            let id = jobs[i].id;
            let closed = jobs[i].invalidate_if_stale(now);
            if closed {
                invalidated.push(id);
            }
            proof {
                let stale = |job: Report| job.is_stale(*now);
                let id_of = |job: Report| job.id;
                assert(old(jobs)@.take(i + 1) =~= seen.push(job));
                seen.lemma_filter_push(job, stale);
                if closed {
                    assert(seen.filter(stale).push(job).map_values(id_of) =~= seen.filter(
                        stale,
                    ).map_values(id_of).push(job.id));
                }
            }
            i = i + 1;
        }
        assert(old(jobs)@.take(i as int) =~= old(jobs)@);
        invalidated
    }

    /// Begins to carry out the import that `input` asks for on behalf of
    /// `user_id`: the run, about to open a report, and that first request.
    /// A request that does not carry what its source needs is refused.
    pub fn import_from_source(&self, user_id: i32, input: DeployImportJobInput) -> (begun: Result<
        (ImportRun, Action),
        ImportError,
    >)
        ensures
            match begun {
                Ok((run, action)) => {
                    &&& input.payload_spec() matches Some(payload)
                    &&& run@ == RunModel::beginning(user_id, input.source, payload)
                    &&& run@.wf()
                    &&& action == (Action::StartImportJob { user_id, source: input.source })
                },
                Err(error) => input.payload_spec() is None && error == ImportError::MissingPayload,
            },
    {
        match ImportRun::begin(user_id, input) {
            Ok(run) => {
                let action = run.request();
                Ok((run, action))
            },
            Err(error) => Err(error),
        }
    }
}

impl ImporterMutation {
    /// Adds a job to import data from one of the sources: the job that
    /// `service` accepts for the request.
    pub fn deploy_import_job(
        &self,
        service: &ImporterService,
        user_id: i32,
        input: DeployImportJobInput,
    ) -> (job: Result<ImportMedia, ImportError>)
        ensures
            match job {
                Ok(job) => {
                    &&& input.payload_spec() is Some
                    &&& job.user_id == user_id
                    &&& job.input.is_normal_form_of(input)
                },
                Err(error) => input.payload_spec() is None && error == ImportError::MissingPayload,
            },
    {
        service.deploy_import_job(user_id, input)
    }
}

} // verus!
