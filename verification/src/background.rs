//! The background jobs: what each one carries, the name it is queued under
//! and the service calls it stands for.

use vstd::prelude::*;
use crate::importer::DeployImportJobInput;
use crate::models::{Exercise, MetadataModel};
use crate::time::Timestamp;

verus! {

/// A job that the clock sets off; it carries the time at which it fired.
#[derive(Clone, Copy, Debug, PartialEq, Eq, Structural)]
pub struct ScheduledJob(pub Timestamp);

impl From<Timestamp> for ScheduledJob {
    fn from(value: Timestamp) -> (job: ScheduledJob) {
        ScheduledJob(value)
    }
}

impl vstd::std_specs::convert::FromSpecImpl<Timestamp> for ScheduledJob {
    open spec fn obeys_from_spec() -> bool {
        true
    }

    open spec fn from_spec(value: Timestamp) -> ScheduledJob {
        ScheduledJob(value)
    }
}

/// Import a user's history as `input` asks.
#[derive(Debug, PartialEq, Eq)]
pub struct ImportMedia {
    pub user_id: i32,
    pub input: DeployImportJobInput,
}

/// Set up what a freshly created user needs.
#[derive(Clone, Copy, Debug, PartialEq, Eq, Structural)]
pub struct UserCreatedJob {
    pub user_id: i32,
}

/// Bring a user's summary up to date.
#[derive(Clone, Copy, Debug, PartialEq, Eq, Structural)]
pub struct RecalculateUserSummaryJob {
    pub user_id: i32,
}

/// Refresh a catalog entry from its provider.
#[derive(Debug, PartialEq, Eq)]
pub struct UpdateMetadataJob {
    pub metadata: MetadataModel,
}

/// Refresh an exercise.
#[derive(Debug, PartialEq, Eq)]
pub struct UpdateExerciseJob {
    pub exercise: Exercise,
}

/// The kinds of job that the queue routes.
#[derive(Clone, Copy, Debug, PartialEq, Eq, Structural)]
pub enum JobKind {
    ScheduledJob,
    ImportMedia,
    UserCreatedJob,
    RecalculateUserSummaryJob,
    UpdateMetadataJob,
    UpdateExerciseJob,
}

/// One call on a service, as a job's handler makes it.
#[derive(Debug, PartialEq, Eq)]
pub enum ServiceCall {
    /// Close the reports of imports that never came to an end.
    InvalidateImportJobs,
    /// Drop catalog entries that no user has anything to do with.
    CleanupMetadataWithAssociatedUserActivities,
    /// Drop links between users and catalog entries that nothing justifies.
    CleanupUserAndMetadataAssociation,
    /// Throw the users' summaries away and build them again.
    RegenerateUserSummaries,
    /// Remove the login tokens that have expired.
    DeleteExpiredUserAuthTokens,
    /// Fetch what the users' integrations have collected.
    YankIntegrationsData,
    /// Run the import.
    ImportFromSource { user_id: i32, input: DeployImportJobInput },
    /// Set up the new user.
    UserCreated { user_id: i32 },
    /// Calculate the user's summary.
    CalculateUserMediaSummary { user_id: i32 },
    /// Refresh the catalog entry.
    UpdateMetadata { metadata: MetadataModel },
    /// Refresh the exercise.
    UpdateExercise { exercise: Exercise },
}

impl JobKind {
    /// The name under which jobs of this kind are queued.
    pub open spec fn name_spec(self) -> Seq<char> {
        match self {
            JobKind::ScheduledJob => "apalis::ScheduledJob"@,
            JobKind::ImportMedia => "apalis::ImportMedia"@,
            JobKind::UserCreatedJob => "apalis::UserCreatedJob"@,
            JobKind::RecalculateUserSummaryJob => "apalis::RecalculateUserSummaryJob"@,
            JobKind::UpdateMetadataJob => "apalis::UpdateMetadataJob"@,
            JobKind::UpdateExerciseJob => "apalis::UpdateExerciseJob"@,
        }
    }

    /// The name under which jobs of this kind are queued.
    pub fn name(&self) -> (name: &'static str)
        ensures
            name@ == self.name_spec(),
    {
        match self {
            JobKind::ScheduledJob => "apalis::ScheduledJob",
            JobKind::ImportMedia => "apalis::ImportMedia",
            JobKind::UserCreatedJob => "apalis::UserCreatedJob",
            JobKind::RecalculateUserSummaryJob => "apalis::RecalculateUserSummaryJob",
            JobKind::UpdateMetadataJob => "apalis::UpdateMetadataJob",
            JobKind::UpdateExerciseJob => "apalis::UpdateExerciseJob",
        }
    }
}

/// No two kinds of job are queued under the same name, so a name routes a
/// job to one handler only.
pub proof fn job_names_are_distinct(a: JobKind, b: JobKind)
    requires
        a != b,
    ensures
        a.name_spec() != b.name_spec(),
{
    reveal_strlit("apalis::ScheduledJob");
    reveal_strlit("apalis::ImportMedia");
    reveal_strlit("apalis::UserCreatedJob");
    reveal_strlit("apalis::RecalculateUserSummaryJob");
    reveal_strlit("apalis::UpdateMetadataJob");
    reveal_strlit("apalis::UpdateExerciseJob");
    let ua = "apalis::UpdateMetadataJob"@;
    let ub = "apalis::UpdateExerciseJob"@;
    assert(ua[14] != ub[14]);
    assert(a.name_spec().len() != b.name_spec().len() || a.name_spec()[14] != b.name_spec()[14]);
}

/// The sweep over the media side: stale import reports are closed, then
/// catalog entries that nobody uses are dropped.
pub fn general_media_cleanup_jobs(_information: ScheduledJob) -> (plan: Vec<ServiceCall>)
    ensures
        plan@ == seq![
            ServiceCall::InvalidateImportJobs,
            ServiceCall::CleanupMetadataWithAssociatedUserActivities,
        ],
{
    let mut plan: Vec<ServiceCall> = Vec::new();
    plan.push(ServiceCall::InvalidateImportJobs);
    plan.push(ServiceCall::CleanupMetadataWithAssociatedUserActivities);
    assert(plan@ =~= seq![
        ServiceCall::InvalidateImportJobs,
        ServiceCall::CleanupMetadataWithAssociatedUserActivities,
    ]);
    plan
}

/// The sweep over the user side: loose associations are dropped, the
/// summaries are built again, expired tokens are removed.
pub fn general_user_cleanup(_information: ScheduledJob) -> (plan: Vec<ServiceCall>)
    ensures
        plan@ == seq![
            ServiceCall::CleanupUserAndMetadataAssociation,
            ServiceCall::RegenerateUserSummaries,
            ServiceCall::DeleteExpiredUserAuthTokens,
        ],
{
    let mut plan: Vec<ServiceCall> = Vec::new();
    plan.push(ServiceCall::CleanupUserAndMetadataAssociation);
    plan.push(ServiceCall::RegenerateUserSummaries);
    plan.push(ServiceCall::DeleteExpiredUserAuthTokens);
    assert(plan@ =~= seq![
        ServiceCall::CleanupUserAndMetadataAssociation,
        ServiceCall::RegenerateUserSummaries,
        ServiceCall::DeleteExpiredUserAuthTokens,
    ]);
    plan
}

/// The data of the integrations is fetched for all users.
pub fn yank_integrations_data(_information: ScheduledJob) -> (plan: Vec<ServiceCall>)
    ensures
        plan@ == seq![ServiceCall::YankIntegrationsData],
{
    let mut plan: Vec<ServiceCall> = Vec::new();
    plan.push(ServiceCall::YankIntegrationsData);
    assert(plan@ =~= seq![ServiceCall::YankIntegrationsData]);
    plan
}

/// The import that the job carries is run, for the user it names.
pub fn import_media(information: ImportMedia) -> (plan: Vec<ServiceCall>)
    ensures
        plan@ == seq![
            ServiceCall::ImportFromSource {
                user_id: information.user_id,
                input: information.input,
            },
        ],
{
    let mut plan: Vec<ServiceCall> = Vec::new();
    plan.push(
        ServiceCall::ImportFromSource { user_id: information.user_id, input: information.input },
    );
    assert(plan@ =~= seq![
        ServiceCall::ImportFromSource {
            user_id: information.user_id,
            input: information.input,
        },
    ]);
    plan
}

/// A new user is set up, then the user's first summary is calculated.
pub fn user_created_job(information: UserCreatedJob) -> (plan: Vec<ServiceCall>)
    ensures
        plan@ == seq![
            ServiceCall::UserCreated { user_id: information.user_id },
            ServiceCall::CalculateUserMediaSummary { user_id: information.user_id },
        ],
{
    let mut plan: Vec<ServiceCall> = Vec::new();
    plan.push(ServiceCall::UserCreated { user_id: information.user_id });
    plan.push(ServiceCall::CalculateUserMediaSummary { user_id: information.user_id });
    assert(plan@ =~= seq![
        ServiceCall::UserCreated { user_id: information.user_id },
        ServiceCall::CalculateUserMediaSummary { user_id: information.user_id },
    ]);
    plan
}

/// The user's summary is calculated.
pub fn recalculate_user_summary_job(information: RecalculateUserSummaryJob) -> (plan: Vec<
    ServiceCall,
>)
    ensures
        plan@ == seq![ServiceCall::CalculateUserMediaSummary { user_id: information.user_id }],
{
    let mut plan: Vec<ServiceCall> = Vec::new();
    plan.push(ServiceCall::CalculateUserMediaSummary { user_id: information.user_id });
    assert(plan@ =~= seq![
        ServiceCall::CalculateUserMediaSummary { user_id: information.user_id },
    ]);
    plan
}

/// The catalog entry that the job carries is refreshed.
pub fn update_metadata_job(information: UpdateMetadataJob) -> (plan: Vec<ServiceCall>)
    ensures
        plan@ == seq![ServiceCall::UpdateMetadata { metadata: information.metadata }],
{
    let mut plan: Vec<ServiceCall> = Vec::new();
    plan.push(ServiceCall::UpdateMetadata { metadata: information.metadata });
    assert(plan@ =~= seq![ServiceCall::UpdateMetadata { metadata: information.metadata }]);
    plan
}

/// The exercise that the job carries is refreshed.
pub fn update_exercise_job(information: UpdateExerciseJob) -> (plan: Vec<ServiceCall>)
    ensures
        plan@ == seq![ServiceCall::UpdateExercise { exercise: information.exercise }],
{
    let mut plan: Vec<ServiceCall> = Vec::new();
    plan.push(ServiceCall::UpdateExercise { exercise: information.exercise });
    assert(plan@ =~= seq![ServiceCall::UpdateExercise { exercise: information.exercise }]);
    plan
}

} // verus!
