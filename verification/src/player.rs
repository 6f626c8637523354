//! Players, listed by their id, and the ranking of players, listed by the
//! place each of them holds.

use crate::error::CoreError;
use crate::nationality::{Continent, Nationality};
use crate::pagination::{
    cursors_of, decoded_all, extremes_of, first_and_last, page, page_context, page_items,
    PageContext, Pagination, PaginationParameters,
};
use crate::query::{
    arguments_of, asks_for_null, clone_nullable, clone_text, compose, fixed, nullable_arguments,
    nullable_text, page_statement, text_of, Query, SqlArgument, SqlValue, Statement,
};
use vstd::prelude::*;

verus! {

/// The part of the players' page statement before the direction keyword.
pub const PLAYERS_PAGE_HEAD: &'static str =
    "SELECT id, name::text, banned, nation::text, iso_country_code::text FROM players LEFT OUTER JOIN nationalities ON players.nationality = nationalities.iso_country_code WHERE (id < $1 OR $1 IS NULL) AND (id > $2 OR $2 IS NULL) AND (name = $3::CITEXT OR $3 IS NULL) AND (STRPOS(name, $4::CITEXT) > 0 OR $4 IS NULL) AND (banned = $5 OR $5 IS NULL) AND (nation = $6 OR iso_country_code = $6 OR (nationality IS NULL AND $7) OR ($6 IS NULL AND NOT $7)) ORDER BY id ";

/// The part of the players' page statement behind the direction keyword.
pub const PLAYERS_PAGE_TAIL: &'static str = " LIMIT $8";

/// The players' boundary statement: the filters of the page statement
/// without the cursors.
pub const PLAYERS_BOUNDARY: &'static str =
    "SELECT MIN(id), MAX(id) FROM players LEFT OUTER JOIN nationalities ON players.nationality = nationalities.iso_country_code WHERE (name = $1::CITEXT OR $1 IS NULL) AND (STRPOS(name, $2::CITEXT) > 0 OR $2 IS NULL) AND (banned = $3 OR $3 IS NULL) AND (nation = $4 OR iso_country_code = $4 OR (nationality IS NULL AND $5) OR ($4 IS NULL AND NOT $5))";

/// A player as every collection that mentions players holds it.
#[derive(Clone, Debug, PartialEq, Eq)]
pub struct DatabasePlayer {
    pub id: i32,
    pub name: String,
    pub banned: bool,
}

/// A player on a page of the list of players.
#[derive(Clone, Debug, PartialEq, Eq)]
pub struct Player {
    pub base: DatabasePlayer,
    pub nationality: Option<Nationality>,
}

/// A row of the players' page statement.
#[derive(Clone, Debug, PartialEq, Eq)]
pub struct PlayerRow {
    pub id: i32,
    pub name: String,
    pub banned: bool,
    pub nation: Option<String>,
    pub iso_country_code: Option<String>,
}

impl Player {
    /// The player that a row stands for.
    pub open spec fn of_row(row: PlayerRow) -> Player {
        Player {
            base: DatabasePlayer { id: row.id, name: row.name, banned: row.banned },
            nationality: Nationality::joined(row.nation, row.iso_country_code),
        }
    }

    pub fn from_row(row: PlayerRow) -> (player: Player)
        ensures
            player == Player::of_row(row),
    {
        Player {
            base: DatabasePlayer { id: row.id, name: row.name, banned: row.banned },
            nationality: Nationality::from_columns(row.nation, row.iso_country_code),
        }
    }
}

/// A request for a page of the list of players.
#[derive(Clone, Debug, PartialEq, Eq)]
pub struct PlayerPagination {
    pub params: PaginationParameters,
    /// Keeps the player of this name.
    pub name: Option<String>,
    /// Keeps the players whose name holds this text.
    pub name_contains: Option<String>,
    /// Keeps the players that are banned, or those that are not.
    pub banned: Option<bool>,
    /// Keeps the players of the nation with this name or code; `Some(None)`
    /// keeps the players without a nation.
    pub nation: Option<Option<String>>,
}

impl PlayerPagination {
    /// The request with other cursors or another limit.
    pub open spec fn with_pagination(self, parameters: PaginationParameters) -> PlayerPagination {
        PlayerPagination { params: parameters, ..self }
    }

    fn filter_values(&self) -> (values: Vec<SqlValue>)
        ensures
            arguments_of(values@) == self.filters(),
    {
        let nation = nullable_arguments(&self.nation);
        let mut values: Vec<SqlValue> = Vec::new();
        values.push(SqlValue::Text(clone_text(&self.name)));
        values.push(SqlValue::Text(clone_text(&self.name_contains)));
        values.push(SqlValue::Boolean(self.banned));
        values.push(nation.0);
        values.push(nation.1);
        assert(arguments_of(values@) =~= self.filters());
        values
    }

    /// The statement that finds the smallest and the greatest id among the
    /// players that the filters keep. It binds the filters of the page
    /// statement and nothing else.
    pub fn boundary_query(&self) -> (query: Query)
        ensures
            query@ == (Statement { text: PLAYERS_BOUNDARY@, arguments: self.filters() }),
    {
        fixed(PLAYERS_BOUNDARY, self.filter_values())
    }

    /// The extremes of the filtered collection, from the row that the
    /// boundary statement returned.
    pub fn first_and_last(smallest: Option<i32>, greatest: Option<i32>) -> (bounds: Option<
        (i32, i32),
    >)
        ensures
            bounds == extremes_of(smallest, greatest),
    {
        first_and_last(smallest, greatest)
    }

    /// Builds the page of this request: see [`page`].
    pub fn page(&self, rows: Vec<PlayerRow>, bounds: Option<(i32, i32)>) -> (page: Result<
        (Vec<Player>, PageContext),
        CoreError,
    >)
        ensures
            page is Ok,
            page->Ok_0.0@ == page_items(
                self.params,
                rows@.map_values(|row: PlayerRow| Player::of_row(row)),
                bounds,
            ),
            page->Ok_0.1 == page_context(
                self.params,
                cursors_of::<Self>(page->Ok_0.0@),
                rows@.len() > self.params.limit,
                bounds,
            ),
    {
        proof {
            lemma_every_player_row_decodes(rows@);
        }
        page::<Self>(self, rows, bounds)
    }
}

/// Every row of the players' page statement stands for a player.
pub proof fn lemma_every_player_row_decodes(rows: Seq<PlayerRow>)
    ensures
        decoded_all::<PlayerPagination>(rows) == Ok::<Seq<Player>, CoreError>(
            rows.map_values(|row: PlayerRow| Player::of_row(row)),
        ),
    decreases rows.len(),
{
    let players = rows.map_values(|row: PlayerRow| Player::of_row(row));
    if rows.len() > 0 {
        let front = rows.drop_last();
        lemma_every_player_row_decodes(front);
        assert(front.map_values(|row: PlayerRow| Player::of_row(row)).push(
            Player::of_row(rows.last()),
        ) =~= players);
    } else {
        assert(players =~= Seq::<Player>::empty());
    }
}

impl Pagination for PlayerPagination {
    type Item = Player;

    type Row = PlayerRow;

    open spec fn pagination(&self) -> PaginationParameters {
        self.params
    }

    open spec fn filters(&self) -> Seq<SqlArgument> {
        seq![
            SqlArgument::Text(text_of(self.name)),
            SqlArgument::Text(text_of(self.name_contains)),
            SqlArgument::Boolean(self.banned),
            SqlArgument::Text(nullable_text(self.nation)),
            SqlArgument::Boolean(Some(asks_for_null(self.nation))),
        ]
    }

    open spec fn template() -> (Seq<char>, Seq<char>) {
        (PLAYERS_PAGE_HEAD@, PLAYERS_PAGE_TAIL@)
    }

    open spec fn cursor(item: &Player) -> i32 {
        item.base.id
    }

    open spec fn decoded(row: PlayerRow) -> Result<Player, CoreError> {
        Ok(Player::of_row(row))
    }

    fn parameters(&self) -> (parameters: PaginationParameters)
        ensures
            parameters == self.params,
    {
        self.params
    }

    fn with_parameters(&self, parameters: PaginationParameters) -> (request: Self)
        ensures
            request == self.with_pagination(parameters),
    {
        PlayerPagination {
            params: parameters,
            name: clone_text(&self.name),
            name_contains: clone_text(&self.name_contains),
            banned: self.banned,
            nation: clone_nullable(&self.nation),
        }
    }

    fn id_of(item: &Player) -> (id: i32)
        ensures
            id == item.base.id,
    {
        item.base.id
    }

    fn decode(row: PlayerRow) -> (item: Result<Player, CoreError>)
        ensures
            item == Ok::<Player, CoreError>(Player::of_row(row)),
    {
        Ok(Player::from_row(row))
    }

    fn query(&self) -> (query: Query)
        ensures
            query@ == page_statement(
                (PLAYERS_PAGE_HEAD@, PLAYERS_PAGE_TAIL@),
                self.params,
                self.filters(),
            ),
    {
        compose(PLAYERS_PAGE_HEAD, PLAYERS_PAGE_TAIL, &self.params, self.filter_values())
    }
}

/// The part of the ranking's page statement before the direction keyword.
/// The rows are ordered by their place alone, never by their score: players
/// of equal score share a rank, and no two players share a place.
pub const RANKING_PAGE_HEAD: &'static str =
    "SELECT id, name::text, rank, score, index, nation::text, iso_country_code::text FROM players_with_score WHERE (index < $1 OR $1 IS NULL) AND (index > $2 OR $2 IS NULL) AND (STRPOS(name, $3::CITEXT) > 0 OR $3 IS NULL) AND (nation = $4 OR iso_country_code = $4 OR (nation IS NULL AND $5) OR ($4 IS NULL AND NOT $5)) AND (continent = CAST($6::TEXT AS continent) OR $6 IS NULL) AND (subdivision = $7 OR $7 IS NULL) ORDER BY index ";

/// The part of the ranking's page statement behind the direction keyword.
pub const RANKING_PAGE_TAIL: &'static str = " LIMIT $8";

/// The ranking's boundary statement: the filters of the page statement
/// without the cursors.
pub const RANKING_BOUNDARY: &'static str =
    "SELECT MIN(index), MAX(index) FROM players_with_score WHERE (STRPOS(name, $1::CITEXT) > 0 OR $1 IS NULL) AND (nation = $2 OR iso_country_code = $2 OR (nation IS NULL AND $3) OR ($2 IS NULL AND NOT $3)) AND (continent = CAST($4::TEXT AS continent) OR $4 IS NULL) AND (subdivision = $5 OR $5 IS NULL)";

/// A player on a page of the ranking.
///
/// `rank` is the rank that the player's score earns, which players of equal
/// score share. `index` is the player's place in the ranking: the places are
/// counted from 1 without a gap, and no two players hold the same. `score`
/// holds the bits of the score, a double precision number.
#[derive(Clone, Debug, PartialEq, Eq)]
pub struct RankedPlayer {
    pub id: i32,
    pub name: String,
    pub rank: i64,
    pub nationality: Option<Nationality>,
    pub score: u64,
    pub index: i64,
}

/// A row of the ranking's page statement.
#[derive(Clone, Debug, PartialEq, Eq)]
pub struct RankedPlayerRow {
    pub id: i32,
    pub name: String,
    pub rank: i64,
    pub score: u64,
    pub index: i64,
    pub nation: Option<String>,
    pub iso_country_code: Option<String>,
}

impl RankedPlayer {
    /// The ranked player that a row stands for.
    pub open spec fn of_row(row: RankedPlayerRow) -> RankedPlayer {
        RankedPlayer {
            id: row.id,
            name: row.name,
            rank: row.rank,
            nationality: Nationality::joined(row.nation, row.iso_country_code),
            score: row.score,
            index: row.index,
        }
    }

    pub fn from_row(row: RankedPlayerRow) -> (player: RankedPlayer)
        ensures
            player == RankedPlayer::of_row(row),
    {
        RankedPlayer {
            id: row.id,
            name: row.name,
            rank: row.rank,
            nationality: Nationality::from_columns(row.nation, row.iso_country_code),
            score: row.score,
            index: row.index,
        }
    }
}

/// A request for a page of the ranking.
#[derive(Clone, Debug, PartialEq, Eq)]
pub struct RankingPagination {
    pub params: PaginationParameters,
    /// Keeps the players of the nation with this name or code; `Some(None)`
    /// keeps the players without a nation.
    pub nation: Option<Option<String>>,
    /// Keeps the players of the nations of this continent.
    pub continent: Option<Continent>,
    /// Keeps the players of the subdivision with this code.
    pub subdivision: Option<String>,
    /// Keeps the players whose name holds this text.
    pub name_contains: Option<String>,
}

/// The name of an optional continent in the database.
pub open spec fn continent_text(continent: Option<Continent>) -> Option<Seq<char>> {
    match continent {
        Some(continent) => Some(continent.sql_name()),
        None => None,
    }
}

impl RankingPagination {
    /// The request with other cursors or another limit.
    pub open spec fn with_pagination(self, parameters: PaginationParameters) -> RankingPagination {
        RankingPagination { params: parameters, ..self }
    }

    /// The extremes of the filtered ranking, given the smallest and the
    /// greatest place among the players that the filters keep: both, or none
    /// if the filters keep no player. The database counts places in 64 bits; a
    /// cursor holds the lower 32 of them, which is the place itself wherever
    /// it fits.
    pub open spec fn places(smallest: Option<i64>, greatest: Option<i64>) -> Option<(i32, i32)> {
        match (smallest, greatest) {
            (Some(first), Some(last)) => Some((first as i32, last as i32)),
            _ => None,
        }
    }

    fn filter_values(&self) -> (values: Vec<SqlValue>)
        ensures
            arguments_of(values@) == self.filters(),
    {
        let nation = nullable_arguments(&self.nation);
        let continent = match self.continent {
            Some(continent) => Some(continent.to_sql()),
            None => None,
        };
        let mut values: Vec<SqlValue> = Vec::new();
        values.push(SqlValue::Text(clone_text(&self.name_contains)));
        values.push(nation.0);
        values.push(nation.1);
        values.push(SqlValue::Text(continent));
        values.push(SqlValue::Text(clone_text(&self.subdivision)));
        assert(arguments_of(values@) =~= self.filters());
        values
    }

    /// The statement that finds the smallest and the greatest place among
    /// the players that the filters keep. It binds the filters of the page
    /// statement and nothing else.
    pub fn boundary_query(&self) -> (query: Query)
        ensures
            query@ == (Statement { text: RANKING_BOUNDARY@, arguments: self.filters() }),
    {
        fixed(RANKING_BOUNDARY, self.filter_values())
    }

    /// The extremes of the filtered ranking, from the row that the boundary
    /// statement returned. Where the filters keep no player the minimum and
    /// the maximum are both `NULL`, and the ranking has no extremes.
    pub fn first_and_last(smallest: Option<i64>, greatest: Option<i64>) -> (bounds: Option<
        (i32, i32),
    >)
        ensures
            bounds == Self::places(smallest, greatest),
            bounds is Some <==> smallest is Some && greatest is Some,
            bounds matches Some(places) ==> {
                &&& i32::MIN <= smallest->0 <= i32::MAX ==> places.0 == smallest->0
                &&& i32::MIN <= greatest->0 <= i32::MAX ==> places.1 == greatest->0
            },
    {
        match (smallest, greatest) {
            (Some(first), Some(last)) => Some((first as i32, last as i32)),
            _ => None,
        }
    }

    /// Builds the page of this request: see [`page`].
    pub fn page(&self, rows: Vec<RankedPlayerRow>, bounds: Option<(i32, i32)>) -> (page: Result<
        (Vec<RankedPlayer>, PageContext),
        CoreError,
    >)
        ensures
            page is Ok,
            page->Ok_0.0@ == page_items(
                self.params,
                rows@.map_values(|row: RankedPlayerRow| RankedPlayer::of_row(row)),
                bounds,
            ),
            page->Ok_0.1 == page_context(
                self.params,
                cursors_of::<Self>(page->Ok_0.0@),
                rows@.len() > self.params.limit,
                bounds,
            ),
    {
        proof {
            lemma_every_ranked_row_decodes(rows@);
        }
        page::<Self>(self, rows, bounds)
    }
}

/// Every row of the ranking's page statement stands for a ranked player.
pub proof fn lemma_every_ranked_row_decodes(rows: Seq<RankedPlayerRow>)
    ensures
        decoded_all::<RankingPagination>(rows) == Ok::<Seq<RankedPlayer>, CoreError>(
            rows.map_values(|row: RankedPlayerRow| RankedPlayer::of_row(row)),
        ),
    decreases rows.len(),
{
    let players = rows.map_values(|row: RankedPlayerRow| RankedPlayer::of_row(row));
    if rows.len() > 0 {
        let front = rows.drop_last();
        lemma_every_ranked_row_decodes(front);
        assert(front.map_values(|row: RankedPlayerRow| RankedPlayer::of_row(row)).push(
            RankedPlayer::of_row(rows.last()),
        ) =~= players);
    } else {
        assert(players =~= Seq::<RankedPlayer>::empty());
    }
}

impl Pagination for RankingPagination {
    type Item = RankedPlayer;

    type Row = RankedPlayerRow;

    open spec fn pagination(&self) -> PaginationParameters {
        self.params
    }

    open spec fn filters(&self) -> Seq<SqlArgument> {
        seq![
            SqlArgument::Text(text_of(self.name_contains)),
            SqlArgument::Text(nullable_text(self.nation)),
            SqlArgument::Boolean(Some(asks_for_null(self.nation))),
            SqlArgument::Text(continent_text(self.continent)),
            SqlArgument::Text(text_of(self.subdivision)),
        ]
    }

    open spec fn template() -> (Seq<char>, Seq<char>) {
        (RANKING_PAGE_HEAD@, RANKING_PAGE_TAIL@)
    }

    /// The cursor of a ranked player is its place. Neither the score nor the
    /// rank, which players can share, has a part in it.
    open spec fn cursor(item: &RankedPlayer) -> i32 {
        item.index as i32
    }

    open spec fn decoded(row: RankedPlayerRow) -> Result<RankedPlayer, CoreError> {
        Ok(RankedPlayer::of_row(row))
    }

    fn parameters(&self) -> (parameters: PaginationParameters)
        ensures
            parameters == self.params,
    {
        self.params
    }

    fn with_parameters(&self, parameters: PaginationParameters) -> (request: Self)
        ensures
            request == self.with_pagination(parameters),
    {
        RankingPagination {
            params: parameters,
            nation: clone_nullable(&self.nation),
            continent: self.continent,
            subdivision: clone_text(&self.subdivision),
            name_contains: clone_text(&self.name_contains),
        }
    }

    fn id_of(item: &RankedPlayer) -> (id: i32)
        ensures
            id == item.index as i32,
            i32::MIN <= item.index <= i32::MAX ==> id == item.index,
    {
        item.index as i32
    }

    fn decode(row: RankedPlayerRow) -> (item: Result<RankedPlayer, CoreError>)
        ensures
            item == Ok::<RankedPlayer, CoreError>(RankedPlayer::of_row(row)),
    {
        Ok(RankedPlayer::from_row(row))
    }

    fn query(&self) -> (query: Query)
        ensures
            query@ == page_statement(
                (RANKING_PAGE_HEAD@, RANKING_PAGE_TAIL@),
                self.params,
                self.filters(),
            ),
    {
        compose(RANKING_PAGE_HEAD, RANKING_PAGE_TAIL, &self.params, self.filter_values())
    }
}

} // verus!
