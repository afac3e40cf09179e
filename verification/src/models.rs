//! The records that travel between a source, the import pipeline and the
//! catalog.

use vstd::prelude::*;
use crate::time::{CalendarDay, Timestamp};

verus! {

/// Progress, in percent, that an imported viewing is recorded with.
pub const COMPLETED_PROGRESS: i32 = 100;

/// The services and export formats that history can be imported from.
#[derive(Clone, Copy, Debug, PartialEq, Eq, Structural)]
pub enum MediaImportSource {
    MediaTracker,
    Goodreads,
    Trakt,
    Movary,
    StoryGraph,
    MediaJson,
}

/// The kinds of media that the catalog holds.
#[derive(Clone, Copy, Debug, PartialEq, Eq, Structural)]
pub enum MetadataLot {
    AudioBook,
    Anime,
    Book,
    Podcast,
    Manga,
    Movie,
    Show,
    VideoGame,
}

/// The metadata providers that catalog entries are resolved against.
#[derive(Clone, Copy, Debug, PartialEq, Eq, Structural)]
pub enum MetadataSource {
    Anilist,
    Audible,
    Custom,
    GoogleBooks,
    Igdb,
    Itunes,
    Listennotes,
    Openlibrary,
    Tmdb,
}

/// Who may see a review or a collection.
#[derive(Clone, Copy, Debug, PartialEq, Eq, Structural)]
pub enum Visibility {
    Public,
    Private,
}

/// A decimal rating: `mantissa` scaled down by ten to the power `scale`.
#[derive(Clone, Copy, Debug, PartialEq, Eq, Structural)]
pub struct Rating {
    pub mantissa: i128,
    pub scale: u32,
}

/// One completed viewing, reading or listening.
#[derive(Clone, Copy, Debug, PartialEq, Eq, Structural)]
pub struct ImportOrExportItemSeen {
    pub started_on: Option<Timestamp>,
    pub ended_on: Option<Timestamp>,
    pub show_season_number: Option<i32>,
    pub show_episode_number: Option<i32>,
    pub podcast_episode_number: Option<i32>,
}

/// The written part of a review.
#[derive(Debug, PartialEq, Eq)]
pub struct ImportOrExportItemReview {
    pub date: Option<Timestamp>,
    pub spoiler: Option<bool>,
    pub text: Option<String>,
}

/// A rating, a written review, or both, for a whole item or one episode.
#[derive(Debug, PartialEq, Eq)]
pub struct ImportOrExportItemRating {
    pub review: Option<ImportOrExportItemReview>,
    pub rating: Option<Rating>,
    pub show_season_number: Option<i32>,
    pub show_episode_number: Option<i32>,
    pub podcast_episode_number: Option<i32>,
}

/// A catalog record that a source filled in completely by itself.
#[derive(Debug, PartialEq, Eq)]
pub struct MediaDetails {
    pub identifier: String,
    pub title: String,
    pub description: Option<String>,
    pub lot: MetadataLot,
    pub source: MetadataSource,
    pub publish_year: Option<i32>,
}

/// What a source knows about the catalog entry behind an item.
#[derive(Debug, PartialEq, Eq)]
pub enum ImportOrExportItemIdentifier {
    /// Only the provider's identifier is known; the details must be looked up.
    NeedsDetails(String),
    /// The whole record is at hand and can be committed as it is.
    AlreadyFilled(MediaDetails),
}

/// One piece of media in a normalised import, with everything the user did
/// with it.
#[derive(Debug, PartialEq, Eq)]
pub struct ImportOrExportItem {
    /// The identifier in the source, kept for diagnostics only.
    pub source_id: String,
    pub lot: MetadataLot,
    pub source: MetadataSource,
    pub identifier: ImportOrExportItemIdentifier,
    pub seen_history: Vec<ImportOrExportItemSeen>,
    pub reviews: Vec<ImportOrExportItemRating>,
    pub collections: Vec<String>,
}

/// The catalog's answer to a commit: the canonical entry.
#[derive(Debug, PartialEq, Eq)]
pub struct MetadataModel {
    pub id: i32,
    pub lot: MetadataLot,
    pub source: MetadataSource,
    pub identifier: String,
    pub title: String,
}

/// An exercise of the fitness catalog.
#[derive(Debug, PartialEq, Eq)]
pub struct Exercise {
    pub identifier: String,
    pub name: String,
}

/// A request to record progress on a catalog entry.
#[derive(Clone, Copy, Debug, PartialEq, Eq, Structural)]
pub struct ProgressUpdateInput {
    pub metadata_id: i32,
    pub progress: Option<i32>,
    pub date: Option<CalendarDay>,
    pub show_season_number: Option<i32>,
    pub show_episode_number: Option<i32>,
    pub podcast_episode_number: Option<i32>,
}

/// A request to store a rating or review of a catalog entry.
#[derive(Debug, PartialEq, Eq)]
pub struct PostReviewInput {
    pub rating: Option<Rating>,
    pub text: Option<String>,
    pub visibility: Option<Visibility>,
    pub spoiler: Option<bool>,
    pub metadata_id: i32,
    pub date: Option<Timestamp>,
    pub review_id: Option<i32>,
    pub show_season_number: Option<i32>,
    pub show_episode_number: Option<i32>,
    pub podcast_episode_number: Option<i32>,
}

/// A request to create a collection, or to update the one named by
/// `update_id`.
#[derive(Debug, PartialEq, Eq)]
pub struct CreateOrUpdateCollectionInput {
    pub name: String,
    pub description: Option<String>,
    pub visibility: Option<Visibility>,
    pub update_id: Option<i32>,
}

/// A request to put a catalog entry into a named collection.
#[derive(Debug, PartialEq, Eq)]
pub struct AddMediaToCollection {
    pub collection_name: String,
    pub media_id: i32,
}

/// A copy of an optional string.
pub fn clone_optional_string(value: &Option<String>) -> (copy: Option<String>)
    ensures
        copy == *value,
{
    match value {
        Some(text) => Some(text.clone()),
        None => None,
    }
}

impl Clone for ImportOrExportItemReview {
    fn clone(&self) -> (copy: Self)
        ensures
            copy == *self,
    {
        ImportOrExportItemReview {
            date: self.date,
            spoiler: self.spoiler,
            text: clone_optional_string(&self.text),
        }
    }
}

impl Clone for MediaDetails {
    fn clone(&self) -> (copy: Self)
        ensures
            copy == *self,
    {
        MediaDetails {
            identifier: self.identifier.clone(),
            title: self.title.clone(),
            description: clone_optional_string(&self.description),
            lot: self.lot,
            source: self.source,
            publish_year: self.publish_year,
        }
    }
}

impl Clone for MetadataModel {
    fn clone(&self) -> (copy: Self)
        ensures
            copy == *self,
    {
        MetadataModel {
            id: self.id,
            lot: self.lot,
            source: self.source,
            identifier: self.identifier.clone(),
            title: self.title.clone(),
        }
    }
}

impl Clone for Exercise {
    fn clone(&self) -> (copy: Self)
        ensures
            copy == *self,
    {
        Exercise { identifier: self.identifier.clone(), name: self.name.clone() }
    }
}

impl Clone for PostReviewInput {
    fn clone(&self) -> (copy: Self)
        ensures
            copy == *self,
    {
        PostReviewInput {
            rating: self.rating,
            text: clone_optional_string(&self.text),
            visibility: self.visibility,
            spoiler: self.spoiler,
            metadata_id: self.metadata_id,
            date: self.date,
            review_id: self.review_id,
            show_season_number: self.show_season_number,
            show_episode_number: self.show_episode_number,
            podcast_episode_number: self.podcast_episode_number,
        }
    }
}

impl Clone for CreateOrUpdateCollectionInput {
    fn clone(&self) -> (copy: Self)
        ensures
            copy == *self,
    {
        CreateOrUpdateCollectionInput {
            name: self.name.clone(),
            description: clone_optional_string(&self.description),
            visibility: self.visibility,
            update_id: self.update_id,
        }
    }
}

impl Clone for AddMediaToCollection {
    fn clone(&self) -> (copy: Self)
        ensures
            copy == *self,
    {
        AddMediaToCollection {
            collection_name: self.collection_name.clone(),
            media_id: self.media_id,
        }
    }
}

impl ProgressUpdateInput {
    /// The update that marks `seen` as watched to the end, on day `date`.
    pub open spec fn completed_spec(
        metadata_id: i32,
        seen: ImportOrExportItemSeen,
        date: Option<CalendarDay>,
    ) -> ProgressUpdateInput {
        ProgressUpdateInput {
            metadata_id,
            progress: Some(COMPLETED_PROGRESS),
            date,
            show_season_number: seen.show_season_number,
            show_episode_number: seen.show_episode_number,
            podcast_episode_number: seen.podcast_episode_number,
        }
    }

    /// The update that marks `seen` as watched to the end, on day `date`.
    pub fn completed(metadata_id: i32, seen: &ImportOrExportItemSeen, date: Option<CalendarDay>) -> (input: ProgressUpdateInput)
        ensures
            input == Self::completed_spec(metadata_id, *seen, date),
    {
        ProgressUpdateInput {
            metadata_id,
            progress: Some(COMPLETED_PROGRESS),
            date,
            show_season_number: seen.show_season_number,
            show_episode_number: seen.show_episode_number,
            podcast_episode_number: seen.podcast_episode_number,
        }
    }
}

impl ImportOrExportItemSeen {
    /// The calendar day on which the viewing ended, if it is known and the
    /// calendar reaches it.
    pub open spec fn ended_day(self) -> Option<CalendarDay> {
        match self.ended_on {
            Some(instant) => instant.calendar_day(),
            None => None,
        }
    }

    /// The progress update that records this viewing against a catalog entry.
    pub open spec fn progress_update_spec(self, metadata_id: i32) -> ProgressUpdateInput {
        ProgressUpdateInput::completed_spec(metadata_id, self, self.ended_day())
    }

    /// The progress update that records this viewing against the catalog
    /// entry `metadata_id`: always complete, dated by the day the viewing
    /// ended.
    pub fn progress_update(&self, metadata_id: i32) -> (input: ProgressUpdateInput)
        ensures
            input == self.progress_update_spec(metadata_id),
            input.progress == Some(COMPLETED_PROGRESS),
            input.metadata_id == metadata_id,
            self.ended_on is None ==> input.date is None,
            self.ended_on matches Some(instant) && instant.within_calendar() ==> input.date is Some,
    {
        let date = match self.ended_on {
            Some(instant) => instant.date_naive(),
            None => None,
        };
        ProgressUpdateInput::completed(metadata_id, self, date)
    }
}

impl ImportOrExportItemRating {
    /// The text of the written review, if there is one.
    pub open spec fn review_text(self) -> Option<String> {
        match self.review {
            Some(review) => review.text,
            None => None,
        }
    }

    /// Whether there is anything to store: a rating or a review text.
    pub open spec fn has_content_spec(self) -> bool {
        self.rating is Some || self.review_text() is Some
    }

    /// The review request that stores this entry against a catalog entry.
    pub open spec fn post_review_spec(self, metadata_id: i32) -> PostReviewInput {
        PostReviewInput {
            rating: self.rating,
            text: self.review_text(),
            visibility: None,
            spoiler: match self.review {
                Some(review) => Some(
                    match review.spoiler {
                        Some(flag) => flag,
                        None => false,
                    },
                ),
                None => None,
            },
            metadata_id,
            date: match self.review {
                Some(review) => review.date,
                None => None,
            },
            review_id: None,
            show_season_number: self.show_season_number,
            show_episode_number: self.show_episode_number,
            podcast_episode_number: self.podcast_episode_number,
        }
    }

    /// Whether there is anything to store: a rating or a review text. An
    /// entry with neither is passed over without a trace.
    pub fn has_content(&self) -> (present: bool)
        ensures
            present == self.has_content_spec(),
    {
        if self.rating.is_some() {
            return true;
        }
        match &self.review {
            Some(review) => review.text.is_some(),
            None => false,
        }
    }

    /// The review request that stores this entry against the catalog entry
    /// `metadata_id`. A written review without a spoiler mark counts as no
    /// spoiler.
    pub fn post_review_input(&self, metadata_id: i32) -> (input: PostReviewInput)
        ensures
            input == self.post_review_spec(metadata_id),
    {
        match &self.review {
            Some(review) => PostReviewInput {
                rating: self.rating,
                text: clone_optional_string(&review.text),
                visibility: None,
                spoiler: Some(
                    match review.spoiler {
                        Some(flag) => flag,
                        None => false,
                    },
                ),
                metadata_id,
                date: review.date,
                review_id: None,
                show_season_number: self.show_season_number,
                show_episode_number: self.show_episode_number,
                podcast_episode_number: self.podcast_episode_number,
            },
            None => PostReviewInput {
                rating: self.rating,
                text: None,
                visibility: None,
                spoiler: None,
                metadata_id,
                date: None,
                review_id: None,
                show_season_number: self.show_season_number,
                show_episode_number: self.show_episode_number,
                podcast_episode_number: self.podcast_episode_number,
            },
        }
    }
}

impl CreateOrUpdateCollectionInput {
    /// The request that makes sure a collection called `name` exists and
    /// changes nothing else about it.
    pub open spec fn named_spec(name: String) -> CreateOrUpdateCollectionInput {
        CreateOrUpdateCollectionInput { name, description: None, visibility: None, update_id: None }
    }

    /// The request that makes sure a collection called `name` exists and
    /// changes nothing else about it.
    pub fn named(name: &String) -> (input: CreateOrUpdateCollectionInput)
        ensures
            input == Self::named_spec(*name),
    {
        CreateOrUpdateCollectionInput {
            name: name.clone(),
            description: None,
            visibility: None,
            update_id: None,
        }
    }
}

impl ImportOrExportItem {
    /// How much the user did with this item: viewings, reviews and
    /// collections, counted together.
    pub open spec fn activity_spec(self) -> nat {
        self.seen_history@.len() + self.reviews@.len() + self.collections@.len()
    }

    /// How much the user did with this item: viewings, reviews and
    /// collections, counted together.
    pub fn activity(&self) -> (count: u128)
        ensures
            count == self.activity_spec(),
    {
        self.seen_history.len() as u128 + self.reviews.len() as u128
            + self.collections.len() as u128
    }
}

} // verus!
