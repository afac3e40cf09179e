//! The durable record of one import and its one-way life cycle.

use vstd::prelude::*;
use crate::importer::ImportResultResponse;
use crate::models::MediaImportSource;
use crate::time::{Timestamp, NANOS_PER_DAY};

verus! {

/// The record of one import: who asked for it, when it began and how it
/// ended. While `success` is `None` the import is running; once it holds a
/// value the record is closed and stays as it is.
#[derive(Debug, PartialEq, Eq)]
pub struct Report {
    pub id: i32,
    pub user_id: i32,
    pub source: MediaImportSource,
    pub started_on: Timestamp,
    pub success: Option<bool>,
    pub result: Option<ImportResultResponse>,
}

impl Report {
    /// The import has not ended.
    pub open spec fn is_running(self) -> bool {
        self.success is None
    }

    /// The import is still marked as running more than twenty-four hours
    /// after it began.
    pub open spec fn is_stale(self, now: Timestamp) -> bool {
        self.is_running() && now.elapsed_since(self.started_on) > NANOS_PER_DAY
    }

    /// The record as it is opened.
    pub open spec fn started(
        id: i32,
        user_id: i32,
        source: MediaImportSource,
        started_on: Timestamp,
    ) -> Report {
        Report { id, user_id, source, started_on, success: None, result: None }
    }

    /// The record after an attempt to close it with an outcome: a running
    /// record takes the outcome, a closed one is left alone.
    pub open spec fn closed_with(self, success: bool, details: ImportResultResponse) -> Report {
        if self.is_running() {
            Report { success: Some(success), result: Some(details), ..self }
        } else {
            self
        }
    }

    /// The record after the sweep at `now` has looked at it: a stale record
    /// is closed as failed, any other is left alone.
    pub open spec fn swept(self, now: Timestamp) -> Report {
        if self.is_stale(now) {
            Report { success: Some(false), ..self }
        } else {
            self
        }
    }

    /// Opens the record of an import that begins at `started_on`.
    pub fn start(id: i32, user_id: i32, source: MediaImportSource, started_on: Timestamp) -> (report:
        Report)
        ensures
            report == Self::started(id, user_id, source, started_on),
            report.is_running(),
    {
        Report { id, user_id, source, started_on, success: None, result: None }
    }

    /// Closes a running record with its outcome and says whether it did.
    /// A record that is closed already keeps what it holds.
    pub fn finish(&mut self, success: bool, details: ImportResultResponse) -> (written: bool)
        ensures
            written == old(self).is_running(),
            *final(self) == old(self).closed_with(success, details),
            !final(self).is_running(),
    {
        if self.success.is_none() {
            self.success = Some(success);
            self.result = Some(details);
            true
        } else {
            false
        }
    }

    /// Closes the record as failed if it is stale at `now`, and says whether
    /// it did.
    pub fn invalidate_if_stale(&mut self, now: &Timestamp) -> (invalidated: bool)
        ensures
            invalidated == old(self).is_stale(*now),
            *final(self) == old(self).swept(*now),
    {
        if self.success.is_none() && now.is_more_than_a_day_after(&self.started_on) {
            self.success = Some(false);
            true
        } else {
            false
        }
    }
}

} // verus!
