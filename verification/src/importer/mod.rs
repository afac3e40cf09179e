//! Import requests, their outcome records and the entry points of the
//! import service.

use vstd::prelude::*;
use crate::models::{
    clone_optional_string, CreateOrUpdateCollectionInput, ImportOrExportItem, MediaImportSource,
    MetadataLot,
};

pub mod laws;
pub mod order;
pub mod report;
pub mod run;
pub mod service;

pub use service::{ImporterMutation, ImporterQuery, ImporterService};

verus! {

/// Where to reach a MediaTracker instance.
#[derive(Debug, PartialEq, Eq)]
pub struct DeployMediaTrackerImportInput {
    /// The base url where the instance is reachable.
    pub api_url: String,
    /// An application token generated by an admin of the instance.
    pub api_key: String,
}

/// Where to find a reader's Goodreads shelf.
#[derive(Debug, PartialEq, Eq)]
pub struct DeployGoodreadsImportInput {
    /// The RSS url found on the reader's profile.
    pub rss_url: String,
}

/// Whose Trakt history to read.
#[derive(Debug, PartialEq, Eq)]
pub struct DeployTraktImportInput {
    /// The public username in Trakt.
    pub username: String,
}

/// The two files of a Movary export.
#[derive(Debug, PartialEq, Eq)]
pub struct DeployMovaryImportInput {
    /// The CSV contents of the history file.
    pub history: String,
    /// The CSV contents of the ratings file.
    pub ratings: String,
}

/// A StoryGraph export.
#[derive(Debug, PartialEq, Eq)]
pub struct DeployStoryGraphImportInput {
    /// The CSV contents of the export file.
    pub export: String,
}

/// A generic JSON export.
#[derive(Debug, PartialEq, Eq)]
pub struct DeployMediaJsonImportInput {
    /// The contents of the JSON export.
    pub export: String,
}

/// A request to import from `source`. The field that belongs to `source`
/// carries what the source needs; the others are not looked at.
#[derive(Debug, PartialEq, Eq)]
pub struct DeployImportJobInput {
    pub source: MediaImportSource,
    pub media_tracker: Option<DeployMediaTrackerImportInput>,
    pub goodreads: Option<DeployGoodreadsImportInput>,
    pub trakt: Option<DeployTraktImportInput>,
    pub movary: Option<DeployMovaryImportInput>,
    pub story_graph: Option<DeployStoryGraphImportInput>,
    pub media_json: Option<DeployMediaJsonImportInput>,
}

/// What one source needs to run, with the source as the tag.
#[derive(Debug, PartialEq, Eq)]
pub enum SourceSpecificInput {
    MediaTracker(DeployMediaTrackerImportInput),
    Goodreads(DeployGoodreadsImportInput),
    Trakt(DeployTraktImportInput),
    Movary(DeployMovaryImportInput),
    StoryGraph(DeployStoryGraphImportInput),
    MediaJson(DeployMediaJsonImportInput),
}

/// The various steps in which media importing can fail.
#[derive(Clone, Copy, Debug, PartialEq, Eq, Structural)]
pub enum ImportFailStep {
    /// Failed to get details from the source itself.
    ItemDetailsFromSource,
    /// Failed to get metadata from the provider.
    MediaDetailsFromProvider,
    /// Failed to transform the data into the required format.
    InputTransformation,
    /// Failed to save a seen history item.
    SeenHistoryConversion,
    /// Failed to save a review or rating item.
    ReviewConversion,
}

/// One thing that went wrong during an import, and for which item.
#[derive(Debug, PartialEq, Eq)]
pub struct ImportFailedItem {
    pub lot: MetadataLot,
    pub step: ImportFailStep,
    pub identifier: String,
    pub error: Option<String>,
}

/// The counts of an import.
#[derive(Clone, Copy, Debug, PartialEq, Eq, Structural)]
pub struct ImportDetails {
    /// How many items came through: the items read less the failures noted.
    pub total: usize,
}

/// What a source hands over: the normalised history, not yet written
/// anywhere.
#[derive(Debug, PartialEq, Eq)]
pub struct ImportResult {
    pub collections: Vec<CreateOrUpdateCollectionInput>,
    pub media: Vec<ImportOrExportItem>,
    pub failed_items: Vec<ImportFailedItem>,
}

/// The summary of a finished import, as users see it.
#[derive(Debug, PartialEq, Eq)]
pub struct ImportResultResponse {
    pub source: MediaImportSource,
    pub import: ImportDetails,
    pub failed_items: Vec<ImportFailedItem>,
}

/// How a source failed before it could hand anything over.
#[derive(Clone, Copy, Debug, PartialEq, Eq, Structural)]
pub enum AdapterErrorKind {
    /// The source could not be reached or did not answer.
    SourceUnavailable,
    /// The source answered, but what it sent could not be understood.
    MalformedInput,
}

/// The failure of a source as a whole.
#[derive(Debug, PartialEq, Eq)]
pub struct AdapterError {
    pub kind: AdapterErrorKind,
    /// The kind of media the source was working on.
    pub lot: MetadataLot,
    /// What the source was working on, in its own terms.
    pub identifier: String,
    pub message: String,
}

/// Why an import could not be accepted or carried through.
#[derive(Debug, PartialEq, Eq)]
pub enum ImportError {
    /// The request names a source and does not carry what that source needs.
    MissingPayload,
    /// No report could be opened for the import.
    ReportNotStarted { message: String },
    /// The outcome could not be written onto the report.
    ReportNotSaved { message: String },
    /// More failures were noted than items were read, so no count of the
    /// items that came through exists.
    MoreFailuresThanItems,
    /// An answer arrived that does not belong to the request that was open.
    UnexpectedEvent,
}

impl Clone for DeployMediaTrackerImportInput {
    fn clone(&self) -> (copy: Self)
        ensures
            copy == *self,
    {
        DeployMediaTrackerImportInput {
            api_url: self.api_url.clone(),
            api_key: self.api_key.clone(),
        }
    }
}

impl Clone for DeployGoodreadsImportInput {
    fn clone(&self) -> (copy: Self)
        ensures
            copy == *self,
    {
        DeployGoodreadsImportInput { rss_url: self.rss_url.clone() }
    }
}

impl Clone for DeployTraktImportInput {
    fn clone(&self) -> (copy: Self)
        ensures
            copy == *self,
    {
        DeployTraktImportInput { username: self.username.clone() }
    }
}

impl Clone for DeployMovaryImportInput {
    fn clone(&self) -> (copy: Self)
        ensures
            copy == *self,
    {
        DeployMovaryImportInput { history: self.history.clone(), ratings: self.ratings.clone() }
    }
}

impl Clone for DeployStoryGraphImportInput {
    fn clone(&self) -> (copy: Self)
        ensures
            copy == *self,
    {
        DeployStoryGraphImportInput { export: self.export.clone() }
    }
}

impl Clone for DeployMediaJsonImportInput {
    fn clone(&self) -> (copy: Self)
        ensures
            copy == *self,
    {
        DeployMediaJsonImportInput { export: self.export.clone() }
    }
}

impl Clone for SourceSpecificInput {
    fn clone(&self) -> (copy: Self)
        ensures
            copy == *self,
    {
        match self {
            SourceSpecificInput::MediaTracker(input) => SourceSpecificInput::MediaTracker(
                input.clone(),
            ),
            SourceSpecificInput::Goodreads(input) => SourceSpecificInput::Goodreads(input.clone()),
            SourceSpecificInput::Trakt(input) => SourceSpecificInput::Trakt(input.clone()),
            SourceSpecificInput::Movary(input) => SourceSpecificInput::Movary(input.clone()),
            SourceSpecificInput::StoryGraph(input) => SourceSpecificInput::StoryGraph(
                input.clone(),
            ),
            SourceSpecificInput::MediaJson(input) => SourceSpecificInput::MediaJson(input.clone()),
        }
    }
}

impl Clone for ImportFailedItem {
    fn clone(&self) -> (copy: Self)
        ensures
            copy == *self,
    {
        ImportFailedItem {
            lot: self.lot,
            step: self.step,
            identifier: self.identifier.clone(),
            error: clone_optional_string(&self.error),
        }
    }
}

impl Clone for ImportError {
    fn clone(&self) -> (copy: Self)
        ensures
            copy == *self,
    {
        match self {
            ImportError::MissingPayload => ImportError::MissingPayload,
            ImportError::ReportNotStarted { message } => ImportError::ReportNotStarted {
                message: message.clone(),
            },
            ImportError::ReportNotSaved { message } => ImportError::ReportNotSaved {
                message: message.clone(),
            },
            ImportError::MoreFailuresThanItems => ImportError::MoreFailuresThanItems,
            ImportError::UnexpectedEvent => ImportError::UnexpectedEvent,
        }
    }
}

impl ImportFailStep {
    /// The step under which the failure of a whole source is filed.
    pub open spec fn of_adapter_error(kind: AdapterErrorKind) -> ImportFailStep {
        match kind {
            AdapterErrorKind::SourceUnavailable => ImportFailStep::ItemDetailsFromSource,
            AdapterErrorKind::MalformedInput => ImportFailStep::InputTransformation,
        }
    }
}

impl AdapterError {
    /// The one entry that stands for this failure in a report.
    pub open spec fn failed_item_spec(self) -> ImportFailedItem {
        ImportFailedItem {
            lot: self.lot,
            step: ImportFailStep::of_adapter_error(self.kind),
            identifier: self.identifier,
            error: Some(self.message),
        }
    }

    /// The one entry that stands for this failure in a report: filed under
    /// the source when it could not be reached, under the transformation
    /// when its data could not be understood.
    pub fn into_failed_item(self) -> (item: ImportFailedItem)
        ensures
            item == self.failed_item_spec(),
    {
        let step = match self.kind {
            AdapterErrorKind::SourceUnavailable => ImportFailStep::ItemDetailsFromSource,
            AdapterErrorKind::MalformedInput => ImportFailStep::InputTransformation,
        };
        ImportFailedItem {
            lot: self.lot,
            step,
            identifier: self.identifier,
            error: Some(self.message),
        }
    }
}

impl ImportResult {
    /// What a source hands over when it has read everything: nothing has
    /// failed yet.
    pub fn new(
        collections: Vec<CreateOrUpdateCollectionInput>,
        media: Vec<ImportOrExportItem>,
    ) -> (result: ImportResult)
        ensures
            result.collections == collections,
            result.media == media,
            result.failed_items@ == Seq::<ImportFailedItem>::empty(),
    {
        ImportResult { collections, media, failed_items: Vec::new() }
    }
}

impl ImportResultResponse {
    /// Whether the failures can be taken off the number of items read.
    pub open spec fn countable(media_count: usize, failed_items: Seq<ImportFailedItem>) -> bool {
        failed_items.len() <= media_count
    }

    /// The summary of an import that read `media_count` items and noted
    /// `failed_items`. The count of items that came through is what is left
    /// when each noted failure is taken off the items read; where more
    /// failures were noted than items read there is no such count and no
    /// summary.
    pub fn summarize(
        source: MediaImportSource,
        media_count: usize,
        failed_items: Vec<ImportFailedItem>,
    ) -> (summary: Option<ImportResultResponse>)
        ensures
            summary is Some <==> Self::countable(media_count, failed_items@),
            summary matches Some(response) ==> {
                &&& response.source == source
                &&& response.failed_items == failed_items
                &&& response.import.total + failed_items@.len() == media_count
            },
    {
        if failed_items.len() <= media_count {
            let total: usize = media_count - failed_items.len();
            Some(ImportResultResponse { source, import: ImportDetails { total }, failed_items })
        } else {
            None
        }
    }
}

impl DeployImportJobInput {
    /// What the source named by the request needs, if the request carries
    /// it.
    pub open spec fn payload_spec(self) -> Option<SourceSpecificInput> {
        match self.source {
            MediaImportSource::MediaTracker => match self.media_tracker {
                Some(input) => Some(SourceSpecificInput::MediaTracker(input)),
                None => None,
            },
            MediaImportSource::Goodreads => match self.goodreads {
                Some(input) => Some(SourceSpecificInput::Goodreads(input)),
                None => None,
            },
            MediaImportSource::Trakt => match self.trakt {
                Some(input) => Some(SourceSpecificInput::Trakt(input)),
                None => None,
            },
            MediaImportSource::Movary => match self.movary {
                Some(input) => Some(SourceSpecificInput::Movary(input)),
                None => None,
            },
            MediaImportSource::StoryGraph => match self.story_graph {
                Some(input) => Some(SourceSpecificInput::StoryGraph(input)),
                None => None,
            },
            MediaImportSource::MediaJson => match self.media_json {
                Some(input) => Some(SourceSpecificInput::MediaJson(input)),
                None => None,
            },
        }
    }

    /// What the source named by the request needs. A request that does not
    /// carry it is refused.
    pub fn into_payload(self) -> (payload: Result<SourceSpecificInput, ImportError>)
        ensures
            match payload {
                Ok(payload) => self.payload_spec() == Some(payload),
                Err(error) => self.payload_spec() is None && error == ImportError::MissingPayload,
            },
    {
        let found = match self.source {
            MediaImportSource::MediaTracker => match self.media_tracker {
                Some(input) => Some(SourceSpecificInput::MediaTracker(input)),
                None => None,
            },
            MediaImportSource::Goodreads => match self.goodreads {
                Some(input) => Some(SourceSpecificInput::Goodreads(input)),
                None => None,
            },
            MediaImportSource::Trakt => match self.trakt {
                Some(input) => Some(SourceSpecificInput::Trakt(input)),
                None => None,
            },
            MediaImportSource::Movary => match self.movary {
                Some(input) => Some(SourceSpecificInput::Movary(input)),
                None => None,
            },
            MediaImportSource::StoryGraph => match self.story_graph {
                Some(input) => Some(SourceSpecificInput::StoryGraph(input)),
                None => None,
            },
            MediaImportSource::MediaJson => match self.media_json {
                Some(input) => Some(SourceSpecificInput::MediaJson(input)),
                None => None,
            },
        };
        match found {
            Some(payload) => Ok(payload),
            None => Err(ImportError::MissingPayload),
        }
    }
}

} // verus!
