//! User accounts, listed by their id.

use crate::error::CoreError;
use crate::pagination::{
    cursors_of, decoded_all, extremes_of, first_and_last, page, page_context, page_items,
    PageContext, Pagination, PaginationParameters,
};
use crate::query::{
    arguments_of, asks_for_null, clone_nullable, clone_text, compose, fixed, nullable_arguments,
    nullable_text, page_statement, text_of, Query, SqlArgument, SqlValue, Statement,
};
use vstd::prelude::*;

verus! {

/// The part of the users' page statement before the direction keyword.
pub const USERS_PAGE_HEAD: &'static str =
    "SELECT member_id, name, permissions::integer, display_name, youtube_channel::text FROM members WHERE (member_id < $1 OR $1 IS NULL) AND (member_id > $2 OR $2 IS NULL) AND (name = $3 OR $3 IS NULL) AND (display_name = $4 OR (display_name IS NULL AND $5) OR ($4 IS NULL AND NOT $5)) AND (permissions & CAST($6::INTEGER AS BIT(16)) = CAST($6::INTEGER AS BIT(16)) OR $6 IS NULL) AND (permissions & CAST($7::INTEGER AS BIT(16)) <> 0::BIT(16) OR $7 IS NULL) AND (STRPOS(name, $8) > 0 OR $8 IS NULL) ORDER BY member_id ";

/// The part of the users' page statement behind the direction keyword.
pub const USERS_PAGE_TAIL: &'static str = " LIMIT $9";

/// The users' boundary statement: the filters of the page statement without
/// the cursors.
pub const USERS_BOUNDARY: &'static str =
    "SELECT MIN(member_id), MAX(member_id) FROM members WHERE (name = $1 OR $1 IS NULL) AND (display_name = $2 OR (display_name IS NULL AND $3) OR ($2 IS NULL AND NOT $3)) AND (permissions & CAST($4::INTEGER AS BIT(16)) = CAST($4::INTEGER AS BIT(16)) OR $4 IS NULL) AND (permissions & CAST($5::INTEGER AS BIT(16)) <> 0::BIT(16) OR $5 IS NULL) AND (STRPOS(name, $6) > 0 OR $6 IS NULL)";

/// The statement that selects the users who hold every one of the permission
/// bits bound to it.
pub const USERS_BY_PERMISSIONS: &'static str =
    "SELECT member_id, name, permissions::integer, display_name, youtube_channel::text FROM members WHERE permissions & CAST($1::INTEGER AS BIT(16)) = CAST($1::INTEGER AS BIT(16))";

/// A user account.
#[derive(Clone, Debug, PartialEq, Eq)]
pub struct User {
    pub id: i32,
    pub name: String,
    /// The permissions of the user, one bit for each.
    pub permissions: u16,
    pub display_name: Option<String>,
    pub youtube_channel: Option<String>,
}

/// A row of a statement that selects users. The database hands the sixteen
/// permission bits out as an integer.
#[derive(Clone, Debug, PartialEq, Eq)]
pub struct UserRow {
    pub member_id: i32,
    pub name: String,
    pub permissions: i32,
    pub display_name: Option<String>,
    pub youtube_channel: Option<String>,
}

impl User {
    /// The user that a row stands for. Of the integer that holds the
    /// permissions, the lower sixteen bits are kept.
    pub open spec fn of_row(row: UserRow) -> User {
        User {
            id: row.member_id,
            name: row.name,
            permissions: row.permissions as u16,
            display_name: row.display_name,
            youtube_channel: row.youtube_channel,
        }
    }

    pub fn from_row(row: UserRow) -> (user: User)
        ensures
            user == User::of_row(row),
    {
        User {
            id: row.member_id,
            name: row.name,
            permissions: row.permissions as u16,
            display_name: row.display_name,
            youtube_channel: row.youtube_channel,
        }
    }

    /// The statement that selects the users who hold all of the given
    /// permission bits.
    pub fn permissions_query(permissions: u16) -> (query: Query)
        ensures
            query@ == (Statement {
                text: USERS_BY_PERMISSIONS@,
                arguments: seq![SqlArgument::Integer(Some(permissions as i32))],
            }),
    {
        let mut arguments: Vec<SqlValue> = Vec::new();
        arguments.push(SqlValue::Integer(Some(permissions as i32)));
        let query = fixed(USERS_BY_PERMISSIONS, arguments);
        assert(query@.arguments =~= seq![SqlArgument::Integer(Some(permissions as i32))]);
        query
    }

    /// The users that the rows of a statement stand for, in the order of the
    /// rows.
    pub fn from_rows(rows: Vec<UserRow>) -> (users: Vec<User>)
        ensures
            users@ == rows@.map_values(|row: UserRow| User::of_row(row)),
    {
        let ghost given = rows@;
        let mut users: Vec<User> = Vec::new();
        for row in source: rows
            invariant
                source.seq() == given,
                users@ == given.take(source.index() as int).map_values(
                    |row: UserRow| User::of_row(row),
                ),
        {
            users.push(User::from_row(row));
            assert(users@ =~= given.take(source.index() + 1).map_values(
                |row: UserRow| User::of_row(row),
            ));
        }
        assert(given.take(given.len() as int) =~= given);
        users
    }
}

/// A request for a page of the list of users.
#[derive(Clone, Debug, PartialEq, Eq)]
pub struct UserPagination {
    pub params: PaginationParameters,
    /// Keeps the user of this name.
    pub name: Option<String>,
    /// Keeps the users whose name holds this text.
    pub name_contains: Option<String>,
    /// Keeps the users with this display name; `Some(None)` keeps the users
    /// without one.
    pub display_name: Option<Option<String>>,
    /// Keeps the users who hold all of these permission bits.
    pub has_permissions: Option<u16>,
    /// Keeps the users who hold at least one of these permission bits.
    pub any_permissions: Option<u16>,
}

/// Permission bits as the integer that is bound to a statement.
pub open spec fn permission_bits(permissions: Option<u16>) -> Option<i32> {
    match permissions {
        Some(bits) => Some(bits as i32),
        None => None,
    }
}

impl UserPagination {
    /// The request with other cursors or another limit.
    pub open spec fn with_pagination(self, parameters: PaginationParameters) -> UserPagination {
        UserPagination { params: parameters, ..self }
    }

    fn filter_values(&self) -> (values: Vec<SqlValue>)
        ensures
            arguments_of(values@) == self.filters(),
    {
        let display_name = nullable_arguments(&self.display_name);
        let has_permissions = match self.has_permissions {
            Some(bits) => Some(bits as i32),
            None => None,
        };
        let any_permissions = match self.any_permissions {
            Some(bits) => Some(bits as i32),
            None => None,
        };
        let mut values: Vec<SqlValue> = Vec::new();
        values.push(SqlValue::Text(clone_text(&self.name)));
        values.push(display_name.0);
        values.push(display_name.1);
        values.push(SqlValue::Integer(has_permissions));
        values.push(SqlValue::Integer(any_permissions));
        values.push(SqlValue::Text(clone_text(&self.name_contains)));
        assert(arguments_of(values@) =~= self.filters());
        values
    }

    /// The statement that finds the smallest and the greatest id among the
    /// users that the filters keep. It binds the filters of the page
    /// statement and nothing else.
    pub fn boundary_query(&self) -> (query: Query)
        ensures
            query@ == (Statement { text: USERS_BOUNDARY@, arguments: self.filters() }),
    {
        fixed(USERS_BOUNDARY, self.filter_values())
    }

    /// The extremes of the filtered collection, from the row that the
    /// boundary statement returned.
    pub fn first_and_last(smallest: Option<i32>, greatest: Option<i32>) -> (bounds: Option<
        (i32, i32),
    >)
        ensures
            bounds == extremes_of(smallest, greatest),
    {
        first_and_last(smallest, greatest)
    }

    /// Builds the page of this request: see [`page`].
    pub fn page(&self, rows: Vec<UserRow>, bounds: Option<(i32, i32)>) -> (page: Result<
        (Vec<User>, PageContext),
        CoreError,
    >)
        ensures
            page is Ok,
            page->Ok_0.0@ == page_items(
                self.params,
                rows@.map_values(|row: UserRow| User::of_row(row)),
                bounds,
            ),
            page->Ok_0.1 == page_context(
                self.params,
                cursors_of::<Self>(page->Ok_0.0@),
                rows@.len() > self.params.limit,
                bounds,
            ),
    {
        proof {
            lemma_every_user_row_decodes(rows@);
        }
        page::<Self>(self, rows, bounds)
    }
}

/// Every row of a statement that selects users stands for a user.
pub proof fn lemma_every_user_row_decodes(rows: Seq<UserRow>)
    ensures
        decoded_all::<UserPagination>(rows) == Ok::<Seq<User>, CoreError>(
            rows.map_values(|row: UserRow| User::of_row(row)),
        ),
    decreases rows.len(),
{
    let users = rows.map_values(|row: UserRow| User::of_row(row));
    if rows.len() > 0 {
        let front = rows.drop_last();
        lemma_every_user_row_decodes(front);
        assert(front.map_values(|row: UserRow| User::of_row(row)).push(User::of_row(rows.last()))
            =~= users);
    } else {
        assert(users =~= Seq::<User>::empty());
    }
}

impl Pagination for UserPagination {
    type Item = User;

    type Row = UserRow;

    open spec fn pagination(&self) -> PaginationParameters {
        self.params
    }

    open spec fn filters(&self) -> Seq<SqlArgument> {
        seq![
            SqlArgument::Text(text_of(self.name)),
            SqlArgument::Text(nullable_text(self.display_name)),
            SqlArgument::Boolean(Some(asks_for_null(self.display_name))),
            SqlArgument::Integer(permission_bits(self.has_permissions)),
            SqlArgument::Integer(permission_bits(self.any_permissions)),
            SqlArgument::Text(text_of(self.name_contains)),
        ]
    }

    open spec fn template() -> (Seq<char>, Seq<char>) {
        (USERS_PAGE_HEAD@, USERS_PAGE_TAIL@)
    }

    open spec fn cursor(item: &User) -> i32 {
        item.id
    }

    open spec fn decoded(row: UserRow) -> Result<User, CoreError> {
        Ok(User::of_row(row))
    }

    fn parameters(&self) -> (parameters: PaginationParameters)
        ensures
            parameters == self.params,
    {
        self.params
    }

    fn with_parameters(&self, parameters: PaginationParameters) -> (request: Self)
        ensures
            request == self.with_pagination(parameters),
    {
        UserPagination {
            params: parameters,
            name: clone_text(&self.name),
            name_contains: clone_text(&self.name_contains),
            display_name: clone_nullable(&self.display_name),
            has_permissions: self.has_permissions,
            any_permissions: self.any_permissions,
        }
    }

    fn id_of(item: &User) -> (id: i32)
        ensures
            id == item.id,
    {
        item.id
    }

    fn decode(row: UserRow) -> (item: Result<User, CoreError>)
        ensures
            item == Ok::<User, CoreError>(User::of_row(row)),
    {
        Ok(User::from_row(row))
    }

    fn query(&self) -> (query: Query)
        ensures
            query@ == page_statement(
                (USERS_PAGE_HEAD@, USERS_PAGE_TAIL@),
                self.params,
                self.filters(),
            ),
    {
        compose(USERS_PAGE_HEAD, USERS_PAGE_TAIL, &self.params, self.filter_values())
    }
}

} // verus!
