//! Records, listed by their id.

use crate::error::CoreError;
use crate::pagination::{
    cursors_of, decoded_all, extremes_of, first_and_last, page, page_context, page_items,
    PageContext, Pagination, PaginationParameters,
};
use crate::player::DatabasePlayer;
use crate::query::{
    arguments_of, asks_for_null, clone_nullable, clone_text, compose, fixed, nullable_arguments,
    nullable_text, page_statement, text_of, Query, SqlArgument, SqlValue, Statement,
};
use vstd::prelude::*;
use vstd::string::*;

verus! {

/// The part of the records' page statement before the direction keyword.
pub const RECORDS_PAGE_HEAD: &'static str =
    "SELECT records.id, progress, records.video::text AS video, status_::text AS status, players.id AS player_id, players.name::text AS player_name, players.banned AS player_banned, demons.id AS demon_id, demons.name::text AS demon_name, demons.position FROM records INNER JOIN players ON records.player = players.id INNER JOIN demons ON records.demon = demons.id WHERE (records.id < $1 OR $1 IS NULL) AND (records.id > $2 OR $2 IS NULL) AND (progress = $3 OR $3 IS NULL) AND (progress < $4 OR $4 IS NULL) AND (progress > $5 OR $5 IS NULL) AND (demons.position = $6 OR $6 IS NULL) AND (demons.position < $7 OR $7 IS NULL) AND (demons.position > $8 OR $8 IS NULL) AND (status_ = CAST($9::TEXT AS record_status) OR $9 IS NULL) AND (demons.name = $10::CITEXT OR $10 IS NULL) AND (demons.id = $11 OR $11 IS NULL) AND (records.video = $12 OR (records.video IS NULL AND $13) OR ($12 IS NULL AND NOT $13)) AND (players.id = $14 OR $14 IS NULL) AND (records.submitter = $15 OR $15 IS NULL) ORDER BY records.id ";

/// The part of the records' page statement behind the direction keyword.
pub const RECORDS_PAGE_TAIL: &'static str = " LIMIT $16";

/// The records' boundary statement: the filters of the page statement
/// without the cursors.
pub const RECORDS_BOUNDARY: &'static str =
    "SELECT MIN(records.id), MAX(records.id) FROM records INNER JOIN players ON records.player = players.id INNER JOIN demons ON records.demon = demons.id WHERE (progress = $1 OR $1 IS NULL) AND (progress < $2 OR $2 IS NULL) AND (progress > $3 OR $3 IS NULL) AND (demons.position = $4 OR $4 IS NULL) AND (demons.position < $5 OR $5 IS NULL) AND (demons.position > $6 OR $6 IS NULL) AND (status_ = CAST($7::TEXT AS record_status) OR $7 IS NULL) AND (demons.name = $8::CITEXT OR $8 IS NULL) AND (demons.id = $9 OR $9 IS NULL) AND (records.video = $10 OR (records.video IS NULL AND $11) OR ($10 IS NULL AND NOT $11)) AND (players.id = $12 OR $12 IS NULL) AND (records.submitter = $13 OR $13 IS NULL)";

/// What has become of a record since it was submitted.
#[derive(Clone, Copy, Debug, PartialEq, Eq)]
pub enum RecordStatus {
    Submitted,
    Approved,
    Rejected,
    UnderConsideration,
}

impl RecordStatus {
    /// The name of the status in the database.
    pub open spec fn sql_name(self) -> Seq<char> {
        match self {
            RecordStatus::Submitted => "SUBMITTED"@,
            RecordStatus::Approved => "APPROVED"@,
            RecordStatus::Rejected => "REJECTED"@,
            RecordStatus::UnderConsideration => "UNDER_CONSIDERATION"@,
        }
    }

    /// The status of a name in the database, if it is the name of one.
    pub open spec fn named(name: Seq<char>) -> Option<RecordStatus> {
        if name == RecordStatus::Submitted.sql_name() {
            Some(RecordStatus::Submitted)
        } else if name == RecordStatus::Approved.sql_name() {
            Some(RecordStatus::Approved)
        } else if name == RecordStatus::Rejected.sql_name() {
            Some(RecordStatus::Rejected)
        } else if name == RecordStatus::UnderConsideration.sql_name() {
            Some(RecordStatus::UnderConsideration)
        } else {
            None
        }
    }

    pub fn to_sql(self) -> (name: String)
        ensures
            name@ == self.sql_name(),
    {
        match self {
            RecordStatus::Submitted => String::from_str("SUBMITTED"),
            RecordStatus::Approved => String::from_str("APPROVED"),
            RecordStatus::Rejected => String::from_str("REJECTED"),
            RecordStatus::UnderConsideration => String::from_str("UNDER_CONSIDERATION"),
        }
    }

    /// Reads a status from its name in the database. A text that names no
    /// status gives `None`.
    pub fn from_sql(sql: &str) -> (status: Option<RecordStatus>)
        ensures
            status == RecordStatus::named(sql@),
    {
        let name = String::from_str(sql);
        if name == String::from_str("SUBMITTED") {
            Some(RecordStatus::Submitted)
        } else if name == String::from_str("APPROVED") {
            Some(RecordStatus::Approved)
        } else if name == String::from_str("REJECTED") {
            Some(RecordStatus::Rejected)
        } else if name == String::from_str("UNDER_CONSIDERATION") {
            Some(RecordStatus::UnderConsideration)
        } else {
            None
        }
    }
}

/// The name of an optional status in the database.
pub open spec fn status_text(status: Option<RecordStatus>) -> Option<Seq<char>> {
    match status {
        Some(status) => Some(status.sql_name()),
        None => None,
    }
}

/// Each status is read back from the name it is written as.
pub proof fn lemma_status_round_trip(status: RecordStatus)
    ensures
        RecordStatus::named(status.sql_name()) == Some(status),
{
    reveal_strlit("SUBMITTED");
    reveal_strlit("APPROVED");
    reveal_strlit("REJECTED");
    reveal_strlit("UNDER_CONSIDERATION");
    assert("SUBMITTED"@.len() == 9);
    assert("APPROVED"@.len() == 8);
    assert("REJECTED"@.len() == 8);
    assert("UNDER_CONSIDERATION"@.len() == 19);
    assert("APPROVED"@[0] == 'A');
    assert("REJECTED"@[0] == 'R');
}

/// A demon as a record mentions it.
#[derive(Clone, Debug, PartialEq, Eq)]
pub struct MinimalDemon {
    pub id: i32,
    pub position: i16,
    pub name: String,
}

/// A record on a page of the list of records, with its player and its demon.
#[derive(Clone, Debug, PartialEq, Eq)]
pub struct MinimalRecordPD {
    pub id: i32,
    pub progress: i16,
    pub video: Option<String>,
    pub status: RecordStatus,
    pub player: DatabasePlayer,
    pub demon: MinimalDemon,
}

/// A row of the records' page statement.
#[derive(Clone, Debug, PartialEq, Eq)]
pub struct RecordRow {
    pub id: i32,
    pub progress: i16,
    pub video: Option<String>,
    pub status: String,
    pub player_id: i32,
    pub player_name: String,
    pub player_banned: bool,
    pub demon_id: i32,
    pub position: i16,
    pub demon_name: String,
}

/// A request for a page of the list of records.
#[derive(Clone, Debug, PartialEq, Eq)]
pub struct RecordPagination {
    pub params: PaginationParameters,
    /// Keeps the records of exactly this progress.
    pub progress: Option<i16>,
    /// Keeps the records of a smaller progress.
    pub progress_lt: Option<i16>,
    /// Keeps the records of a greater progress.
    pub progress_gt: Option<i16>,
    /// Keeps the records on the demon at this position.
    pub demon_position: Option<i16>,
    /// Keeps the records on demons at a smaller position.
    pub demon_position_lt: Option<i16>,
    /// Keeps the records on demons at a greater position.
    pub demon_position_gt: Option<i16>,
    /// Keeps the records of this status.
    pub status: Option<RecordStatus>,
    /// Keeps the records of the player with this id.
    pub player: Option<i32>,
    /// Keeps the records on the demon of this name.
    pub demon: Option<String>,
    /// Keeps the records on the demon with this id.
    pub demon_id: Option<i32>,
    /// Keeps the records with this video; `Some(None)` keeps the records
    /// without a video.
    pub video: Option<Option<String>>,
    /// Keeps the records that the submitter with this id sent in.
    pub submitter: Option<i32>,
}

impl Default for RecordPagination {
    /// The first page of all records.
    fn default() -> (request: Self)
        ensures
            request == RecordPagination::unfiltered(
                PaginationParameters { before: None, after: None, limit: 50 },
            ),
    {
        RecordPagination {
            params: PaginationParameters::default(),
            progress: None,
            progress_lt: None,
            progress_gt: None,
            demon_position: None,
            demon_position_lt: None,
            demon_position_gt: None,
            status: None,
            player: None,
            demon: None,
            demon_id: None,
            video: None,
            submitter: None,
        }
    }
}

impl RecordPagination {
    /// The request that keeps every record.
    pub open spec fn unfiltered(parameters: PaginationParameters) -> RecordPagination {
        RecordPagination {
            params: parameters,
            progress: None,
            progress_lt: None,
            progress_gt: None,
            demon_position: None,
            demon_position_lt: None,
            demon_position_gt: None,
            status: None,
            player: None,
            demon: None,
            demon_id: None,
            video: None,
            submitter: None,
        }
    }

    /// The request with other cursors or another limit.
    pub open spec fn with_pagination(self, parameters: PaginationParameters) -> RecordPagination {
        RecordPagination { params: parameters, ..self }
    }

    fn filter_values(&self) -> (values: Vec<SqlValue>)
        ensures
            arguments_of(values@) == self.filters(),
    {
        let video = nullable_arguments(&self.video);
        let status = match self.status {
            Some(status) => Some(status.to_sql()),
            None => None,
        };
        let mut values: Vec<SqlValue> = Vec::new();
        values.push(SqlValue::SmallInt(self.progress));
        values.push(SqlValue::SmallInt(self.progress_lt));
        values.push(SqlValue::SmallInt(self.progress_gt));
        values.push(SqlValue::SmallInt(self.demon_position));
        values.push(SqlValue::SmallInt(self.demon_position_lt));
        values.push(SqlValue::SmallInt(self.demon_position_gt));
        values.push(SqlValue::Text(status));
        values.push(SqlValue::Text(clone_text(&self.demon)));
        values.push(SqlValue::Integer(self.demon_id));
        values.push(video.0);
        values.push(video.1);
        values.push(SqlValue::Integer(self.player));
        values.push(SqlValue::Integer(self.submitter));
        assert(arguments_of(values@) =~= self.filters());
        values
    }

    /// The statement that finds the smallest and the greatest id among the
    /// records that the filters keep. It binds the filters of the page
    /// statement and nothing else.
    pub fn boundary_query(&self) -> (query: Query)
        ensures
            query@ == (Statement { text: RECORDS_BOUNDARY@, arguments: self.filters() }),
    {
        fixed(RECORDS_BOUNDARY, self.filter_values())
    }

    /// The extremes of the filtered collection, from the row that the
    /// boundary statement returned.
    pub fn first_and_last(smallest: Option<i32>, greatest: Option<i32>) -> (bounds: Option<
        (i32, i32),
    >)
        ensures
            bounds == extremes_of(smallest, greatest),
    {
        first_and_last(smallest, greatest)
    }

    /// Builds the page of this request: see [`page`].
    ///
    /// A row whose status names no status cannot be decoded. Where the rows
    /// hold one, no page is built and a database error is returned.
    pub fn page(&self, rows: Vec<RecordRow>, bounds: Option<(i32, i32)>) -> (page: Result<
        (Vec<MinimalRecordPD>, PageContext),
        CoreError,
    >)
        ensures
            page is Ok <==> forall|i: int|
                0 <= i < rows@.len() ==> RecordStatus::named((#[trigger] rows@[i]).status@)
                    is Some,
            page is Ok ==> {
                &&& decoded_all::<Self>(rows@) is Ok
                &&& page->Ok_0.0@ == page_items(
                    self.params,
                    decoded_all::<Self>(rows@)->Ok_0,
                    bounds,
                )
                &&& page->Ok_0.1 == page_context(
                    self.params,
                    cursors_of::<Self>(page->Ok_0.0@),
                    rows@.len() > self.params.limit,
                    bounds,
                )
            },
            page is Err ==> page->Err_0 == CoreError::DatabaseError,
    {
        proof {
            lemma_rows_decode(rows@);
        }
        page::<Self>(self, rows, bounds)
    }
}

/// The rows of the records' page statement can be decoded exactly if each
/// of them holds the name of a status. Then each stands for one record; else
/// a database error is reported.
pub proof fn lemma_rows_decode(rows: Seq<RecordRow>)
    ensures
        decoded_all::<RecordPagination>(rows) is Ok <==> forall|i: int|
            0 <= i < rows.len() ==> RecordStatus::named((#[trigger] rows[i]).status@) is Some,
        decoded_all::<RecordPagination>(rows) is Ok ==> decoded_all::<RecordPagination>(
            rows,
        )->Ok_0.len() == rows.len(),
        decoded_all::<RecordPagination>(rows) is Err ==> decoded_all::<RecordPagination>(
            rows,
        )->Err_0 == CoreError::DatabaseError,
    decreases rows.len(),
{
    if rows.len() > 0 {
        let front = rows.drop_last();
        lemma_rows_decode(front);
        if decoded_all::<RecordPagination>(rows) is Ok {
            assert forall|i: int| 0 <= i < rows.len() implies RecordStatus::named(
                (#[trigger] rows[i]).status@,
            ) is Some by {
                if i < rows.len() - 1 {
                    assert(front[i] == rows[i]);
                }
            }
        } else if decoded_all::<RecordPagination>(front) is Err {
            let i = choose|i: int|
                0 <= i < front.len() && !(RecordStatus::named((#[trigger] front[i]).status@)
                    is Some);
            assert(front[i] == rows[i]);
        } else {
            assert(RecordStatus::named(rows[rows.len() - 1].status@) is None);
        }
    }
}

impl Pagination for RecordPagination {
    type Item = MinimalRecordPD;

    type Row = RecordRow;

    open spec fn pagination(&self) -> PaginationParameters {
        self.params
    }

    open spec fn filters(&self) -> Seq<SqlArgument> {
        seq![
            SqlArgument::SmallInt(self.progress),
            SqlArgument::SmallInt(self.progress_lt),
            SqlArgument::SmallInt(self.progress_gt),
            SqlArgument::SmallInt(self.demon_position),
            SqlArgument::SmallInt(self.demon_position_lt),
            SqlArgument::SmallInt(self.demon_position_gt),
            SqlArgument::Text(status_text(self.status)),
            SqlArgument::Text(text_of(self.demon)),
            SqlArgument::Integer(self.demon_id),
            SqlArgument::Text(nullable_text(self.video)),
            SqlArgument::Boolean(Some(asks_for_null(self.video))),
            SqlArgument::Integer(self.player),
            SqlArgument::Integer(self.submitter),
        ]
    }

    open spec fn template() -> (Seq<char>, Seq<char>) {
        (RECORDS_PAGE_HEAD@, RECORDS_PAGE_TAIL@)
    }

    open spec fn cursor(item: &MinimalRecordPD) -> i32 {
        item.id
    }

    open spec fn decoded(row: RecordRow) -> Result<MinimalRecordPD, CoreError> {
        match RecordStatus::named(row.status@) {
            Some(status) => Ok(
                MinimalRecordPD {
                    id: row.id,
                    progress: row.progress,
                    video: row.video,
                    status,
                    player: DatabasePlayer {
                        id: row.player_id,
                        name: row.player_name,
                        banned: row.player_banned,
                    },
                    demon: MinimalDemon {
                        id: row.demon_id,
                        position: row.position,
                        name: row.demon_name,
                    },
                },
            ),
            None => Err(CoreError::DatabaseError),
        }
    }

    fn parameters(&self) -> (parameters: PaginationParameters)
        ensures
            parameters == self.params,
    {
        self.params
    }

    fn with_parameters(&self, parameters: PaginationParameters) -> (request: Self)
        ensures
            request == self.with_pagination(parameters),
    {
        RecordPagination {
            params: parameters,
            progress: self.progress,
            progress_lt: self.progress_lt,
            progress_gt: self.progress_gt,
            demon_position: self.demon_position,
            demon_position_lt: self.demon_position_lt,
            demon_position_gt: self.demon_position_gt,
            status: self.status,
            player: self.player,
            demon: clone_text(&self.demon),
            demon_id: self.demon_id,
            video: clone_nullable(&self.video),
            submitter: self.submitter,
        }
    }

    fn id_of(item: &MinimalRecordPD) -> (id: i32)
        ensures
            id == item.id,
    {
        item.id
    }

    /// Decodes a row. It stands for a record exactly if its status is the
    /// name of one; a row of any other status is a database error.
    fn decode(row: RecordRow) -> (item: Result<MinimalRecordPD, CoreError>)
        ensures
            item is Ok <==> RecordStatus::named(row.status@) is Some,
            item is Err ==> item->Err_0 == CoreError::DatabaseError,
    {
        match RecordStatus::from_sql(row.status.as_str()) {
            Some(status) => Ok(
                MinimalRecordPD {
                    id: row.id,
                    progress: row.progress,
                    video: row.video,
                    status,
                    player: DatabasePlayer {
                        id: row.player_id,
                        name: row.player_name,
                        banned: row.player_banned,
                    },
                    demon: MinimalDemon {
                        id: row.demon_id,
                        position: row.position,
                        name: row.demon_name,
                    },
                },
            ),
            None => Err(CoreError::DatabaseError),
        }
    }

    fn query(&self) -> (query: Query)
        ensures
            query@ == page_statement(
                (RECORDS_PAGE_HEAD@, RECORDS_PAGE_TAIL@),
                self.params,
                self.filters(),
            ),
    {
        compose(RECORDS_PAGE_HEAD, RECORDS_PAGE_TAIL, &self.params, self.filter_values())
    }
}

} // verus!
