//! Plain values exchanged with the database: the statements the handlers
//! issue, the rows and replies they get back, and the decoding of a row's
//! columns.
use vstd::prelude::*;

verus! {

/// A value bound to a statement's parameter or read from a row's column.
#[derive(Debug)]
pub enum SqlValue {
    Null,
    Text(String),
    Int(i32),
    BigInt(i64),
    Bool(bool),
    TextArray(Vec<String>),
}

pub enum SqlValueView {
    Null,
    Text(Seq<char>),
    Int(i32),
    BigInt(i64),
    Bool(bool),
    TextArray(Seq<Seq<char>>),
}

impl View for SqlValue {
    type V = SqlValueView;

    open spec fn view(&self) -> SqlValueView {
        match self {
            SqlValue::Null => SqlValueView::Null,
            SqlValue::Text(s) => SqlValueView::Text(s@),
            SqlValue::Int(i) => SqlValueView::Int(*i),
            SqlValue::BigInt(i) => SqlValueView::BigInt(*i),
            SqlValue::Bool(b) => SqlValueView::Bool(*b),
            SqlValue::TextArray(v) => SqlValueView::TextArray(v@.map_values(|t: String| t@)),
        }
    }
}

/// One named column of a row.
#[derive(Debug)]
pub struct Column {
    pub name: String,
    pub value: SqlValue,
}

pub struct ColumnView {
    pub name: Seq<char>,
    pub value: SqlValueView,
}

impl View for Column {
    type V = ColumnView;

    open spec fn view(&self) -> ColumnView {
        ColumnView { name: self.name@, value: self.value@ }
    }
}

/// A row returned by a query, its columns in the order the query lists them.
#[derive(Debug)]
pub struct Row {
    pub columns: Vec<Column>,
}

impl View for Row {
    type V = Seq<ColumnView>;

    open spec fn view(&self) -> Seq<ColumnView> {
        self.columns@.map_values(|c: Column| c@)
    }
}

/// How the statement is to be run, and so which reply it gets.
#[derive(PartialEq, Eq, Structural, Clone, Copy, Debug)]
pub enum Fetch {
    /// At most one row: the reply is `Fetched` with `Some` row or `None`.
    Optional,
    /// Exactly one row: the reply is `Fetched(Some(row))`, or `Failed(RowNotFound)`.
    One,
    /// Every row: the reply is `FetchedAll`.
    All,
    /// No rows: the reply is `Executed` with the number of rows affected.
    Execute,
}

/// A statement for the database to run, with its parameters `$1`, `$2`, ...
#[derive(Debug)]
pub struct Statement {
    pub sql: String,
    pub params: Vec<SqlValue>,
    pub fetch: Fetch,
}

pub struct StatementView {
    pub sql: Seq<char>,
    pub params: Seq<SqlValueView>,
    pub fetch: Fetch,
}

impl View for Statement {
    type V = StatementView;

    open spec fn view(&self) -> StatementView {
        StatementView {
            sql: self.sql@,
            params: self.params@.map_values(|p: SqlValue| p@),
            fetch: self.fetch,
        }
    }
}

/// Why a statement or the decoding of its result failed.
#[derive(Debug)]
pub enum DbError {
    ColumnNotFound(String),
    ColumnIndexOutOfBounds(usize),
    ColumnDecode(String),
    RowNotFound,
    Database(String),
}

pub enum DbErrorView {
    ColumnNotFound(Seq<char>),
    ColumnIndexOutOfBounds(usize),
    ColumnDecode(Seq<char>),
    RowNotFound,
    Database(Seq<char>),
}

impl View for DbError {
    type V = DbErrorView;

    open spec fn view(&self) -> DbErrorView {
        match self {
            DbError::ColumnNotFound(s) => DbErrorView::ColumnNotFound(s@),
            DbError::ColumnIndexOutOfBounds(i) => DbErrorView::ColumnIndexOutOfBounds(*i),
            DbError::ColumnDecode(s) => DbErrorView::ColumnDecode(s@),
            DbError::RowNotFound => DbErrorView::RowNotFound,
            DbError::Database(s) => DbErrorView::Database(s@),
        }
    }
}

/// What the database answered to the last statement.
#[derive(Debug)]
pub enum DbEvent {
    Fetched(Option<Row>),
    FetchedAll(Vec<Row>),
    Executed(u64),
    Failed(DbError),
}

pub enum DbEventView {
    Fetched(Option<Seq<ColumnView>>),
    FetchedAll(Seq<Seq<ColumnView>>),
    Executed(u64),
    Failed(DbErrorView),
}

impl View for DbEvent {
    type V = DbEventView;

    open spec fn view(&self) -> DbEventView {
        match self {
            DbEvent::Fetched(Some(r)) => DbEventView::Fetched(Some(r@)),
            DbEvent::Fetched(None) => DbEventView::Fetched(None),
            DbEvent::FetchedAll(rows) => DbEventView::FetchedAll(rows@.map_values(|r: Row| r@)),
            DbEvent::Executed(n) => DbEventView::Executed(*n),
            DbEvent::Failed(e) => DbEventView::Failed(e@),
        }
    }
}

/// The value of the first column named `name`, if any.
pub open spec fn lookup(cols: Seq<ColumnView>, name: Seq<char>) -> Option<SqlValueView>
    decreases cols.len(),
{
    if cols.len() == 0 {
        None
    } else if cols[0].name == name {
        Some(cols[0].value)
    } else {
        lookup(cols.drop_first(), name)
    }
}

/// A non-null text column.
pub open spec fn decode_text(cols: Seq<ColumnView>, name: Seq<char>) -> Result<Seq<char>, DbErrorView> {
    match lookup(cols, name) {
        None => Err(DbErrorView::ColumnNotFound(name)),
        Some(SqlValueView::Text(s)) => Ok(s),
        Some(_) => Err(DbErrorView::ColumnDecode(name)),
    }
}

/// A nullable text column.
pub open spec fn decode_opt_text(cols: Seq<ColumnView>, name: Seq<char>) -> Result<Option<Seq<char>>, DbErrorView> {
    match lookup(cols, name) {
        None => Err(DbErrorView::ColumnNotFound(name)),
        Some(SqlValueView::Null) => Ok(None),
        Some(SqlValueView::Text(s)) => Ok(Some(s)),
        Some(_) => Err(DbErrorView::ColumnDecode(name)),
    }
}

/// A non-null 4-byte integer column.
pub open spec fn decode_int(cols: Seq<ColumnView>, name: Seq<char>) -> Result<i32, DbErrorView> {
    match lookup(cols, name) {
        None => Err(DbErrorView::ColumnNotFound(name)),
        Some(SqlValueView::Int(i)) => Ok(i),
        Some(_) => Err(DbErrorView::ColumnDecode(name)),
    }
}

/// A nullable 4-byte integer column.
pub open spec fn decode_opt_int(cols: Seq<ColumnView>, name: Seq<char>) -> Result<Option<i32>, DbErrorView> {
    match lookup(cols, name) {
        None => Err(DbErrorView::ColumnNotFound(name)),
        Some(SqlValueView::Null) => Ok(None),
        Some(SqlValueView::Int(i)) => Ok(Some(i)),
        Some(_) => Err(DbErrorView::ColumnDecode(name)),
    }
}

/// A nullable 8-byte integer column.
pub open spec fn decode_opt_bigint(cols: Seq<ColumnView>, name: Seq<char>) -> Result<Option<i64>, DbErrorView> {
    match lookup(cols, name) {
        None => Err(DbErrorView::ColumnNotFound(name)),
        Some(SqlValueView::Null) => Ok(None),
        Some(SqlValueView::BigInt(i)) => Ok(Some(i)),
        Some(_) => Err(DbErrorView::ColumnDecode(name)),
    }
}

/// A non-null boolean column, taken by its position.
pub open spec fn decode_bool_at(cols: Seq<ColumnView>, index: usize) -> Result<bool, DbErrorView> {
    if index >= cols.len() {
        Err(DbErrorView::ColumnIndexOutOfBounds(index))
    } else {
        match cols[index as int].value {
            SqlValueView::Bool(b) => Ok(b),
            _ => Err(DbErrorView::ColumnDecode(cols[index as int].name)),
        }
    }
}

proof fn lemma_lookup_skip(cols: Seq<ColumnView>, name: Seq<char>, i: int)
    requires
        0 <= i < cols.len(),
        cols[i].name != name,
    ensures
        lookup(cols.skip(i), name) == lookup(cols.skip(i + 1), name),
{
    assert(cols.skip(i).drop_first() =~= cols.skip(i + 1));
}

/// The position and value of the first column named `name`.
pub fn find_column(row: &Row, name: &str) -> (r: Option<usize>)
    ensures
        match r {
            Some(i) => i < row@.len() && row@[i as int].name == name@ && lookup(row@, name@) == Some(
                row@[i as int].value,
            ),
            None => lookup(row@, name@) is None,
        },
{
    let wanted = name.to_owned();
    let n = row.columns.len();
    let mut i: usize = 0;
    assert(row@.skip(0) =~= row@);
    while i < n
        invariant
            n == row@.len(),
            n == row.columns@.len(),
            i <= n,
            wanted@ == name@,
            lookup(row@, name@) == lookup(row@.skip(i as int), name@),
        decreases n - i,
    {
        if row.columns[i].name == wanted {
            assert(row@.skip(i as int)[0] == row@[i as int]);
            return Some(i);
        }
        proof {
            lemma_lookup_skip(row@, name@, i as int);
        }
        i = i + 1;
    }
    assert(row@.skip(i as int).len() == 0);
    None
}

pub fn get_text(row: &Row, name: &str) -> (r: Result<String, DbError>)
    ensures
        match r {
            Ok(s) => decode_text(row@, name@) == Ok::<Seq<char>, DbErrorView>(s@),
            Err(e) => decode_text(row@, name@) == Err::<Seq<char>, DbErrorView>(e@),
        },
{
    match find_column(row, name) {
        None => Err(DbError::ColumnNotFound(name.to_owned())),
        Some(i) => match &row.columns[i].value {
            SqlValue::Text(s) => Ok(s.clone()),
            _ => Err(DbError::ColumnDecode(name.to_owned())),
        },
    }
}

pub fn get_opt_text(row: &Row, name: &str) -> (r: Result<Option<String>, DbError>)
    ensures
        match r {
            Ok(Some(s)) => decode_opt_text(row@, name@) == Ok::<Option<Seq<char>>, DbErrorView>(Some(s@)),
            Ok(None) => decode_opt_text(row@, name@) == Ok::<Option<Seq<char>>, DbErrorView>(None),
            Err(e) => decode_opt_text(row@, name@) == Err::<Option<Seq<char>>, DbErrorView>(e@),
        },
{
    match find_column(row, name) {
        None => Err(DbError::ColumnNotFound(name.to_owned())),
        Some(i) => match &row.columns[i].value {
            SqlValue::Null => Ok(None),
            SqlValue::Text(s) => Ok(Some(s.clone())),
            _ => Err(DbError::ColumnDecode(name.to_owned())),
        },
    }
}

pub fn get_int(row: &Row, name: &str) -> (r: Result<i32, DbError>)
    ensures
        match r {
            Ok(v) => decode_int(row@, name@) == Ok::<i32, DbErrorView>(v),
            Err(e) => decode_int(row@, name@) == Err::<i32, DbErrorView>(e@),
        },
{
    match find_column(row, name) {
        None => Err(DbError::ColumnNotFound(name.to_owned())),
        Some(i) => match &row.columns[i].value {
            SqlValue::Int(v) => Ok(*v),
            _ => Err(DbError::ColumnDecode(name.to_owned())),
        },
    }
}

pub fn get_opt_int(row: &Row, name: &str) -> (r: Result<Option<i32>, DbError>)
    ensures
        match r {
            Ok(v) => decode_opt_int(row@, name@) == Ok::<Option<i32>, DbErrorView>(v),
            Err(e) => decode_opt_int(row@, name@) == Err::<Option<i32>, DbErrorView>(e@),
        },
{
    match find_column(row, name) {
        None => Err(DbError::ColumnNotFound(name.to_owned())),
        Some(i) => match &row.columns[i].value {
            SqlValue::Null => Ok(None),
            SqlValue::Int(v) => Ok(Some(*v)),
            _ => Err(DbError::ColumnDecode(name.to_owned())),
        },
    }
}

pub fn get_opt_bigint(row: &Row, name: &str) -> (r: Result<Option<i64>, DbError>)
    ensures
        match r {
            Ok(v) => decode_opt_bigint(row@, name@) == Ok::<Option<i64>, DbErrorView>(v),
            Err(e) => decode_opt_bigint(row@, name@) == Err::<Option<i64>, DbErrorView>(e@),
        },
{
    match find_column(row, name) {
        None => Err(DbError::ColumnNotFound(name.to_owned())),
        Some(i) => match &row.columns[i].value {
            SqlValue::Null => Ok(None),
            SqlValue::BigInt(v) => Ok(Some(*v)),
            _ => Err(DbError::ColumnDecode(name.to_owned())),
        },
    }
}

pub fn get_bool_at(row: &Row, index: usize) -> (r: Result<bool, DbError>)
    ensures
        match r {
            Ok(b) => decode_bool_at(row@, index) == Ok::<bool, DbErrorView>(b),
            Err(e) => decode_bool_at(row@, index) == Err::<bool, DbErrorView>(e@),
        },
{
    if index >= row.columns.len() {
        Err(DbError::ColumnIndexOutOfBounds(index))
    } else {
        match &row.columns[index].value {
            SqlValue::Bool(b) => Ok(*b),
            _ => Err(DbError::ColumnDecode(row.columns[index].name.clone())),
        }
    }
}

} // verus!
