//! The background jobs that the application hands to its job runner.
//!
//! Structured payloads travel as JSON documents and identifiers as text;
//! nothing here looks inside a payload.

use vstd::prelude::*;
use vstd::std_specs::convert::FromSpecImpl;

verus! {

/// `uuid::Uuid`, carried by a job and never looked into.
#[verifier::external_type_specification]
#[verifier::external_body]
pub struct ExUuid(uuid::Uuid);

/// `chrono_tz::Tz`, a time zone, carried and never looked into.
#[verifier::external_type_specification]
#[verifier::external_body]
pub struct ExTz(chrono_tz::Tz);

/// The jobs that the runner must always admit: it neither throttles nor
/// merges them.
#[derive(Debug)]
pub enum CoreApplicationJob {
    /// Propagate the integration data of the user with this identifier.
    SyncIntegrationsData(String),
    /// Record that a review was posted; the payload is the event.
    ReviewPosted(serde_json::Value),
    /// Apply a batch of progress updates for the user with this identifier.
    BulkProgressUpdate(String, Vec<serde_json::Value>),
}

/// The jobs that the application deploys and that the runner may throttle,
/// merge or schedule.
#[derive(Debug)]
pub enum ApplicationJob {
    UpdatePerson(String),
    SyncIntegrationsData,
    UpdateExerciseLibrary,
    PerformExport(String),
    PerformBackgroundTasks,
    RecalculateCalendarEvents,
    ReviseUserWorkouts(String),
    UpdateMetadataGroup(String),
    UpdateMetadata(String, bool),
    HandleOnSeenComplete(String),
    /// The payload is the record of the viewing that was just completed.
    HandleAfterMediaSeenTasks(serde_json::Value),
    /// The payload is the exercise as the exercise library describes it.
    UpdateGithubExerciseJob(serde_json::Value),
    HandleEntityAddedToCollectionEvent(uuid::Uuid),
    RecalculateUserActivitiesAndSummary(String, bool),
    /// The kind of media, its source, and the identifier of the group.
    AssociateGroupWithMetadata(String, String, String),
    /// The user's identifier and the description of what to import.
    ImportFromExternalSource(String, Box<serde_json::Value>),
}

impl CoreApplicationJob {
    /// The name of the job's kind: that of its variant, whatever it carries.
    pub open spec fn name(&self) -> Seq<char> {
        match *self {
            CoreApplicationJob::SyncIntegrationsData(_) => "SyncIntegrationsData"@,
            CoreApplicationJob::ReviewPosted(_) => "ReviewPosted"@,
            CoreApplicationJob::BulkProgressUpdate(_, _) => "BulkProgressUpdate"@,
        }
    }

    /// The name of the job's kind, as text.
    pub fn to_string(&self) -> (text: String)
        ensures
            text@ == self.name(),
    {
        let name = match self {
            CoreApplicationJob::SyncIntegrationsData(_) => "SyncIntegrationsData",
            CoreApplicationJob::ReviewPosted(_) => "ReviewPosted",
            CoreApplicationJob::BulkProgressUpdate(_, _) => "BulkProgressUpdate",
        };
        name.to_owned()
    }
}

impl ApplicationJob {
    /// The name of the job's kind: that of its variant, whatever it carries.
    pub open spec fn name(&self) -> Seq<char> {
        match *self {
            ApplicationJob::UpdatePerson(_) => "UpdatePerson"@,
            ApplicationJob::SyncIntegrationsData => "SyncIntegrationsData"@,
            ApplicationJob::UpdateExerciseLibrary => "UpdateExerciseLibrary"@,
            ApplicationJob::PerformExport(_) => "PerformExport"@,
            ApplicationJob::PerformBackgroundTasks => "PerformBackgroundTasks"@,
            ApplicationJob::RecalculateCalendarEvents => "RecalculateCalendarEvents"@,
            ApplicationJob::ReviseUserWorkouts(_) => "ReviseUserWorkouts"@,
            ApplicationJob::UpdateMetadataGroup(_) => "UpdateMetadataGroup"@,
            ApplicationJob::UpdateMetadata(_, _) => "UpdateMetadata"@,
            ApplicationJob::HandleOnSeenComplete(_) => "HandleOnSeenComplete"@,
            ApplicationJob::HandleAfterMediaSeenTasks(_) => "HandleAfterMediaSeenTasks"@,
            ApplicationJob::UpdateGithubExerciseJob(_) => "UpdateGithubExerciseJob"@,
            ApplicationJob::HandleEntityAddedToCollectionEvent(_) => "HandleEntityAddedToCollectionEvent"@,
            ApplicationJob::RecalculateUserActivitiesAndSummary(_, _) => "RecalculateUserActivitiesAndSummary"@,
            ApplicationJob::AssociateGroupWithMetadata(_, _, _) => "AssociateGroupWithMetadata"@,
            ApplicationJob::ImportFromExternalSource(_, _) => "ImportFromExternalSource"@,
        }
    }

    /// The name of the job's kind, as text.
    pub fn to_string(&self) -> (text: String)
        ensures
            text@ == self.name(),
    {
        let name = match self {
            ApplicationJob::UpdatePerson(_) => "UpdatePerson",
            ApplicationJob::SyncIntegrationsData => "SyncIntegrationsData",
            ApplicationJob::UpdateExerciseLibrary => "UpdateExerciseLibrary",
            ApplicationJob::PerformExport(_) => "PerformExport",
            ApplicationJob::PerformBackgroundTasks => "PerformBackgroundTasks",
            ApplicationJob::RecalculateCalendarEvents => "RecalculateCalendarEvents",
            ApplicationJob::ReviseUserWorkouts(_) => "ReviseUserWorkouts",
            ApplicationJob::UpdateMetadataGroup(_) => "UpdateMetadataGroup",
            ApplicationJob::UpdateMetadata(_, _) => "UpdateMetadata",
            ApplicationJob::HandleOnSeenComplete(_) => "HandleOnSeenComplete",
            ApplicationJob::HandleAfterMediaSeenTasks(_) => "HandleAfterMediaSeenTasks",
            ApplicationJob::UpdateGithubExerciseJob(_) => "UpdateGithubExerciseJob",
            ApplicationJob::HandleEntityAddedToCollectionEvent(_) => "HandleEntityAddedToCollectionEvent",
            ApplicationJob::RecalculateUserActivitiesAndSummary(_, _) => "RecalculateUserActivitiesAndSummary",
            ApplicationJob::AssociateGroupWithMetadata(_, _, _) => "AssociateGroupWithMetadata",
            ApplicationJob::ImportFromExternalSource(_, _) => "ImportFromExternalSource",
        };
        name.to_owned()
    }
}

/// An instant and the time zone it is read in: the seconds since the Unix
/// epoch, the nanoseconds into that second, and the zone.
#[derive(Clone, Copy, Debug, PartialEq, Eq)]
pub struct ZonedInstant {
    pub seconds: i64,
    pub nanos: u32,
    pub zone: chrono_tz::Tz,
}

/// The instant, in its time zone, at which a recurring job fires next.
#[derive(Clone, Copy, Debug, PartialEq, Eq)]
pub struct ScheduledJob(pub ZonedInstant);

impl From<ZonedInstant> for ScheduledJob {
    fn from(value: ZonedInstant) -> (job: ScheduledJob) {
        ScheduledJob(value)
    }
}

impl FromSpecImpl<ZonedInstant> for ScheduledJob {
    open spec fn obeys_from_spec() -> bool {
        true
    }

    /// The job holds the very instant it was made from, zone included.
    open spec fn from_spec(value: ZonedInstant) -> ScheduledJob {
        ScheduledJob(value)
    }
}

} // verus!
