//! The orchestrator: a state machine from the current stage and the outcome of
//! the last outside step to the next stage and the next step to perform.
//! Whoever drives it performs each step (a query, a store, a publish) and
//! hands the outcome back; the chain digest is committed only once a row has
//! been stored and published.
//!
//! Policy on failures: the cursor moves on with every fetch handed out, so a
//! position is never fetched twice. Any failed step, a missing row included,
//! stops the pipeline with the chain state of the last published row and the
//! cursor as it stood; restarting, backing off and resuming from that state
//! are the driver's concern.
use vstd::prelude::*;
use vstd::string::StringExecFns;
use crate::cell::{CellValue, JsonScalar, cell_json, cell_text};
use crate::chain::{calculate_hash, chain_digest, is_digest, opt_text};
use crate::cursor::{RowCursor, row_query, row_query_text, advance_step};
use crate::record::{SchemaDrift, document_text, json_projections, string_views, row_document};

verus! {

/// Validity window re-asserted on every publish of the pointer record.
pub const POINTER_LIFETIME: &'static str = "12h";

/// Where the orchestrator stands in the current iteration.
pub enum Stage {
    /// Ready to fetch the next row.
    Idle,
    /// A fetch was handed out.
    AwaitingRow,
    /// The row was hashed and its record handed out to be stored.
    Anchoring { digest: String },
    /// The record was stored; the pointer update was handed out.
    Publishing { digest: String, anchor: String },
    /// An iteration failed; nothing more is done.
    Stopped,
}

/// The outcome of the step last handed out.
pub enum Event {
    /// The fetch found a row: its cells in schema order.
    Row(Vec<CellValue>),
    /// The fetch found no row at the position.
    NoRow,
    /// The record was stored under this anchor reference.
    Stored(String),
    /// The pointer was published; this is its key.
    Published(String),
    /// The outside call failed.
    Failed,
}

/// Why the pipeline stopped.
#[derive(Debug, PartialEq, Eq)]
pub enum PipelineError {
    /// The database could not be queried.
    Database,
    /// No row stands at the cursor's position.
    NotFound,
    /// The row's length differs from the schema's.
    SchemaDrift(SchemaDrift),
    /// The store could not be reached.
    Storage,
    /// The record was stored but the pointer could not be updated.
    PublishAfterStore,
    /// The cursor has no further position.
    CursorExhausted,
    /// An outcome came that does not answer the step handed out.
    OutOfOrder,
}

/// What the driver is to do next.
pub enum Step {
    /// Run this query; it fetches the row at `position`.
    Fetch { query: String, position: u64 },
    /// Store this document, the row's canonical record.
    Store { document: String },
    /// Point the pointer record at this path.
    Publish { path: String },
    /// The iteration succeeded: report these three values.
    Report { key: String, anchor: String, digest: String },
    /// Stop with this error.
    Stop(PipelineError),
}

/// The pipeline: the table it follows, its schema, its cursor and its chain state.
pub struct App {
    pub table_name: String,
    pub columns: Vec<String>,
    pub cursor: RowCursor,
    pub last_hash: Option<String>,
    pub stage: Stage,
}

/// `/ipfs/<anchor>`: the path a pointer record is published to.
pub open spec fn publish_target(anchor: Seq<char>) -> Seq<char> {
    seq!['/', 'i', 'p', 'f', 's', '/'] + anchor
}

/// The path under which an anchor reference is published.
pub fn publish_path(cid: &str) -> (r: String)
    ensures
        r@ == publish_target(cid@),
{
    proof {
        reveal_strlit("/ipfs/");
    }
    let mut out = String::from_str("/ipfs/");
    out.append(cid);
    out
}

/// Everything of the pipeline but its stage and chain state is left alone.
pub open spec fn same_setup(before: App, after: App) -> bool {
    &&& after.table_name == before.table_name
    &&& after.columns == before.columns
}

/// The stop of a failed iteration: chain state and cursor untouched.
pub open spec fn stopped_with(before: App, after: App, step: Step, e: PipelineError) -> bool {
    &&& after.stage == Stage::Stopped
    &&& after.last_hash == before.last_hash
    &&& after.cursor == before.cursor
    &&& step == Step::Stop(e)
}

/// One call of [`App::handle`]: the stage before, the outcome handed in, the
/// pipeline after and the step handed out.
pub open spec fn transition(before: App, event: Event, after: App, step: Step) -> bool {
    &&& same_setup(before, after)
    &&& match (before.stage, event) {
        (Stage::AwaitingRow, Event::Row(values)) => if before.columns@.len() == values@.len() {
            &&& after.cursor == before.cursor
            &&& after.last_hash == before.last_hash
            &&& match (after.stage, step) {
                (Stage::Anchoring { digest }, Step::Store { document }) => {
                    &&& digest@ == chain_digest(values@, opt_text(before.last_hash))
                    &&& document@ == document_text(
                        before.table_name@,
                        string_views(before.columns@),
                        json_projections(values@),
                    )
                },
                _ => false,
            }
        } else {
            stopped_with(
                before,
                after,
                step,
                PipelineError::SchemaDrift(
                    SchemaDrift {
                        columns: before.columns@.len() as usize,
                        values: values@.len() as usize,
                    },
                ),
            )
        },
        (Stage::AwaitingRow, Event::NoRow) => stopped_with(before, after, step, PipelineError::NotFound),
        (Stage::AwaitingRow, Event::Failed) => stopped_with(before, after, step, PipelineError::Database),
        (Stage::Anchoring { digest }, Event::Stored(anchor)) => {
            &&& after.cursor == before.cursor
            &&& after.last_hash == before.last_hash
            &&& after.stage == (Stage::Publishing { digest, anchor })
            &&& match step {
                Step::Publish { path } => path@ == publish_target(anchor@),
                _ => false,
            }
        },
        (Stage::Anchoring { .. }, Event::Failed) => stopped_with(before, after, step, PipelineError::Storage),
        (Stage::Publishing { digest, anchor }, Event::Published(key)) => {
            &&& after.cursor == before.cursor
            &&& after.last_hash == Some(digest)
            &&& after.stage == Stage::Idle
            &&& step == (Step::Report { key, anchor, digest })
        },
        (Stage::Publishing { .. }, Event::Failed) => stopped_with(
            before,
            after,
            step,
            PipelineError::PublishAfterStore,
        ),
        _ => stopped_with(before, after, step, PipelineError::OutOfOrder),
    }
}

impl App {
    /// A pipeline over `table_name` with its columns in declared order: cursor at
    /// the first row, no chain state yet.
    pub fn new(table_name: String, columns: Vec<String>) -> (r: App)
        ensures
            r.table_name == table_name,
            r.columns == columns,
            r.cursor.next_row_id == crate::cursor::FIRST_ROW_ID,
            r.last_hash == None::<String>,
            r.stage == Stage::Idle,
    {
        App { table_name, columns, cursor: RowCursor::new(), last_hash: None, stage: Stage::Idle }
    }

    /// Starts an iteration: hands out the fetch of the row at the cursor and
    /// moves the cursor on, whatever that fetch will bring.
    pub fn next_fetch(&mut self) -> (r: Step)
        ensures
            same_setup(*old(self), *final(self)),
            final(self).last_hash == old(self).last_hash,
            old(self).stage == Stage::Idle && old(self).cursor.can_advance() ==> {
                &&& advance_step(old(self).cursor, final(self).cursor, old(self).cursor.next_row_id)
                &&& final(self).stage == Stage::AwaitingRow
                &&& match r {
                    Step::Fetch { query, position } => {
                        &&& position == old(self).cursor.next_row_id
                        &&& query@ == row_query_text(old(self).table_name@, position as nat)
                    },
                    _ => false,
                }
            },
            old(self).stage == Stage::Idle && !old(self).cursor.can_advance() ==> stopped_with(
                *old(self),
                *final(self),
                r,
                PipelineError::CursorExhausted,
            ),
            old(self).stage != Stage::Idle ==> stopped_with(
                *old(self),
                *final(self),
                r,
                PipelineError::OutOfOrder,
            ),
    {
        match self.stage {
            Stage::Idle => {},
            _ => {
                self.stage = Stage::Stopped;
                return Step::Stop(PipelineError::OutOfOrder);
            },
        }
        if self.cursor.next_row_id == u64::MAX {
            self.stage = Stage::Stopped;
            return Step::Stop(PipelineError::CursorExhausted);
        }
        let position = self.cursor.advance();
        self.stage = Stage::AwaitingRow;
        Step::Fetch { query: row_query(self.table_name.as_str(), position), position }
    }

    /// Takes the outcome of the step last handed out and hands out the next one.
    pub fn handle(&mut self, event: Event) -> (r: Step)
        ensures
            transition(*old(self), event, *final(self), r),
    {
        let mut stage = Stage::Stopped;
        std::mem::swap(&mut self.stage, &mut stage);
        match (stage, event) {
            (Stage::AwaitingRow, Event::Row(values)) => {
                match row_document(&self.columns, &values, &self.table_name) {
                    Ok(document) => {
                        let prev = match &self.last_hash {
                            Some(h) => Some(h.clone()),
                            None => None,
                        };
                        let digest = calculate_hash(&values, prev);
                        self.stage = Stage::Anchoring { digest };
                        Step::Store { document }
                    },
                    Err(e) => Step::Stop(PipelineError::SchemaDrift(e)),
                }
            },
            (Stage::AwaitingRow, Event::NoRow) => Step::Stop(PipelineError::NotFound),
            (Stage::AwaitingRow, Event::Failed) => Step::Stop(PipelineError::Database),
            (Stage::Anchoring { digest }, Event::Stored(anchor)) => {
                let path = publish_path(anchor.as_str());
                self.stage = Stage::Publishing { digest, anchor };
                Step::Publish { path }
            },
            (Stage::Anchoring { .. }, Event::Failed) => Step::Stop(PipelineError::Storage),
            (Stage::Publishing { digest, anchor }, Event::Published(key)) => {
                self.last_hash = Some(digest.clone());
                self.stage = Stage::Idle;
                Step::Report { key, anchor, digest }
            },
            (Stage::Publishing { .. }, Event::Failed) => Step::Stop(PipelineError::PublishAfterStore),
            _ => Step::Stop(PipelineError::OutOfOrder),
        }
    }

    /// The compact JSON document of a row: `table_name` first, then each column
    /// with the JSON projection of its cell. Fails when the row and the schema
    /// differ in length.
    pub fn wrap_to_json_string(columns: Vec<String>, values: Vec<CellValue>, table_name: String) -> (r:
        Result<String, SchemaDrift>)
        ensures
            match r {
                Ok(s) => {
                    &&& columns@.len() == values@.len()
                    &&& s@ == document_text(table_name@, string_views(columns@), json_projections(values@))
                },
                Err(e) => {
                    &&& columns@.len() != values@.len()
                    &&& e == (SchemaDrift { columns: columns@.len() as usize, values: values@.len() as usize })
                },
            },
    {
        row_document(&columns, &values, &table_name)
    }

    /// The JSON projection of a cell.
    pub fn into_json_value(item: CellValue) -> (r: JsonScalar)
        ensures
            r@ == cell_json(item),
    {
        crate::cell::into_json_value(&item)
    }

    /// The string projection of a cell, the text that is hashed.
    pub fn into_string(item: &CellValue) -> (r: String)
        ensures
            r@ == cell_text(*item),
    {
        crate::cell::into_string(item)
    }

    /// Chain digest of a row given the previous one (see [`calculate_hash`]).
    pub fn calculate_hash(&self, values: &Vec<CellValue>, prev_hash: Option<String>) -> (r: String)
        ensures
            r@ == chain_digest(values@, opt_text(prev_hash)),
            is_digest(r@),
    {
        calculate_hash(values, prev_hash)
    }
}


/// The chain state changes only when a stored record's pointer has been
/// published, and then becomes the digest computed for that row.
pub proof fn lemma_chain_committed_only_after_publish(before: App, event: Event, after: App, step: Step)
    requires
        transition(before, event, after, step),
        after.last_hash != before.last_hash,
    ensures
        before.stage is Publishing,
        event is Published,
        after.last_hash == Some(before.stage->Publishing_digest),
{
}

/// A failed publish after a successful store stops the pipeline with the chain
/// state and the cursor as they were.
pub proof fn lemma_failed_publish_keeps_chain(before: App, after: App, step: Step)
    requires
        before.stage is Publishing,
        transition(before, Event::Failed, after, step),
    ensures
        after.last_hash == before.last_hash,
        after.cursor == before.cursor,
        after.stage == Stage::Stopped,
        step == Step::Stop(PipelineError::PublishAfterStore),
{
}

} // verus!
