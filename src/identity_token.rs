//! Validation of the tabular answer to the identity-token management query.
//!
//! The answer must hold exactly one table, with a column named
//! `AuthorizationContext` and exactly one row, whose cell in that column is a
//! string that is not blank. The checks run in that order and the first
//! violation is the error.
use vstd::prelude::*;

verus! {

/// Declares serde_json::Value, held by a cell that is not a JSON string.
#[verifier::external_type_specification]
#[verifier::external_body]
pub struct ExJsonValue(serde_json::Value);

/// The name of the column that carries the token.
pub const AUTHORIZATION_CONTEXT: &'static str = "AuthorizationContext";

/// A cell of a query result: the text of a JSON string, or any other JSON
/// value.
#[derive(Debug)]
pub enum Cell {
    Text(String),
    Other(serde_json::Value),
}

/// One table of a query result: its column names, and its rows of cells,
/// each row indexed like the columns.
#[derive(Debug)]
pub struct QueryTable {
    pub columns: Vec<String>,
    pub rows: Vec<Vec<Cell>>,
}

/// Why the answer to the identity-token query holds no usable token.
#[derive(Debug)]
pub enum KustoIdentityTokenError {
    ExpectedOneTable(usize),
    ExpectedOneRow(usize),
    ColumnNotFound(String),
    InvalidJSONResponse(serde_json::Value),
    EmptyToken,
}

/// Whether `c` has the Unicode White_Space property.
pub open spec fn is_white_space(c: char) -> bool {
    let u = c as u32;
    ||| 0x9 <= u <= 0xD
    ||| u == 0x20
    ||| u == 0x85
    ||| u == 0xA0
    ||| u == 0x1680
    ||| 0x2000 <= u <= 0x200A
    ||| u == 0x2028
    ||| u == 0x2029
    ||| u == 0x202F
    ||| u == 0x205F
    ||| u == 0x3000
}

/// Relies on char::is_whitespace, which is true exactly of the characters
/// with the Unicode White_Space property.
#[verifier::external_body]
fn char_is_whitespace(c: char) -> (r: bool)
    ensures
        r == is_white_space(c),
{
    c.is_whitespace()
}

/// A text that is empty or made of white space only.
pub open spec fn is_blank(s: Seq<char>) -> bool {
    forall|i: int| 0 <= i < s.len() ==> is_white_space(#[trigger] s[i])
}

pub open spec fn column_names(t: QueryTable) -> Seq<Seq<char>> {
    t.columns@.map_values(|c: String| c@)
}

/// `i` is the first position of `name` in `names`.
pub open spec fn is_first_index(names: Seq<Seq<char>>, name: Seq<char>, i: int) -> bool {
    &&& 0 <= i < names.len()
    &&& names[i] == name
    &&& forall|j: int| 0 <= j < i ==> names[j] != name
}

pub open spec fn has_name(names: Seq<Seq<char>>, name: Seq<char>) -> bool {
    exists|i: int| 0 <= i < names.len() && names[i] == name
}

/// The first position of `name` in `names`, where it occurs.
pub open spec fn first_index(names: Seq<Seq<char>>, name: Seq<char>) -> int {
    choose|i: int| is_first_index(names, name, i)
}

proof fn lemma_first_index_unique(names: Seq<Seq<char>>, name: Seq<char>, i: int)
    requires
        is_first_index(names, name, i),
    ensures
        first_index(names, name) == i,
{
    let k = first_index(names, name);
    assert(is_first_index(names, name, k));
    if k < i {
        assert(names[k] != name);
    } else if i < k {
        assert(names[i] != name);
    }
}

/// Whether the answer has the shape the token is read from: one table, the
/// token column, one row, and a cell of that row under that column.
pub open spec fn well_shaped(tables: Seq<QueryTable>) -> bool {
    &&& tables.len() == 1
    &&& has_name(column_names(tables[0]), AUTHORIZATION_CONTEXT@)
    &&& tables[0].rows@.len() == 1
    &&& first_index(column_names(tables[0]), AUTHORIZATION_CONTEXT@)
        < tables[0].rows@[0]@.len()
}

/// The cell that holds the token in a well-shaped answer.
pub open spec fn token_cell(tables: Seq<QueryTable>) -> Cell {
    tables[0].rows@[0]@[first_index(column_names(tables[0]), AUTHORIZATION_CONTEXT@)]
}

/// `e` is the error of the first shape check that the answer fails.
pub open spec fn shape_error(tables: Seq<QueryTable>, e: KustoIdentityTokenError) -> bool {
    if tables.len() != 1 {
        e matches KustoIdentityTokenError::ExpectedOneTable(n) && n == tables.len()
    } else if !has_name(column_names(tables[0]), AUTHORIZATION_CONTEXT@) {
        e matches KustoIdentityTokenError::ColumnNotFound(c) && c@ == AUTHORIZATION_CONTEXT@
    } else if tables[0].rows@.len() != 1 {
        e matches KustoIdentityTokenError::ExpectedOneRow(n) && n == tables[0].rows@.len()
    } else if first_index(column_names(tables[0]), AUTHORIZATION_CONTEXT@)
        >= tables[0].rows@[0]@.len() {
        e matches KustoIdentityTokenError::ColumnNotFound(c) && c@ == AUTHORIZATION_CONTEXT@
    } else {
        false
    }
}

/// The first position of the column `name` in `table`, if it has one.
pub fn column_index(table: &QueryTable, name: &str) -> (r: Option<usize>)
    ensures
        r is None <==> !has_name(column_names(*table), name@),
        r matches Some(i) ==> is_first_index(column_names(*table), name@, i as int),
{
    let ghost names = column_names(*table);
    let target = String::from_str(name);
    let mut i: usize = 0;
    while i < table.columns.len()
        invariant
            names == column_names(*table),
            target@ == name@,
            names.len() == table.columns@.len(),
            i <= names.len(),
            forall|j: int| 0 <= j < i ==> names[j] != name@,
        decreases table.columns.len() - i,
    {
        assert(names[i as int] == table.columns@[i as int]@);
        if table.columns[i] == target {
            return Some(i);
        }
        i = i + 1;
    }
    None
}

/// `r` is what the token cell gives: the text of a string cell that is not
/// blank, `EmptyToken` for a blank one, and the value itself for a cell that
/// is not a JSON string.
pub open spec fn token_from(cell: Cell, r: Result<String, KustoIdentityTokenError>) -> bool {
    match cell {
        Cell::Text(t) => if is_blank(t@) {
            r is Err && r->Err_0 is EmptyToken
        } else {
            r is Ok && r->Ok_0 == t
        },
        Cell::Other(v) => r is Err && r->Err_0 is InvalidJSONResponse
            && r->Err_0->InvalidJSONResponse_0 == v,
    }
}

/// Whether `s` is empty or made of white space only.
pub fn blank(s: &str) -> (r: bool)
    ensures
        r == is_blank(s@),
{
    let n = s.unicode_len();
    let mut i: usize = 0;
    while i < n
        invariant
            n == s@.len(),
            i <= n,
            forall|j: int| 0 <= j < i ==> is_white_space(#[trigger] s@[j]),
        decreases n - i,
    {
        if !char_is_whitespace(s.get_char(i)) {
            return false;
        }
        i = i + 1;
    }
    true
}

/// The token a cell holds: the text of a string cell that is not blank.
pub fn token_from_cell(cell: Cell) -> (r: Result<String, KustoIdentityTokenError>)
    ensures
        token_from(cell, r),
{
    match cell {
        Cell::Text(t) => {
            if blank(t.as_str()) {
                Err(KustoIdentityTokenError::EmptyToken)
            } else {
                Ok(t)
            }
        },
        Cell::Other(v) => Err(KustoIdentityTokenError::InvalidJSONResponse(v)),
    }
}

/// Reads the identity token out of the answer to the identity-token query,
/// checking its shape first.
pub fn identity_token_from_tables(tables: Vec<QueryTable>) -> (r: Result<
    String,
    KustoIdentityTokenError,
>)
    ensures
        !well_shaped(tables@) ==> r is Err && shape_error(tables@, r->Err_0),
        well_shaped(tables@) ==> token_from(token_cell(tables@), r),
{
    let ghost all = tables@;
    let mut tables = tables;
    if tables.len() != 1 {
        return Err(KustoIdentityTokenError::ExpectedOneTable(tables.len()));
    }
    let table = tables.pop().unwrap();
    assert(table == all[0]);
    let index = match column_index(&table, AUTHORIZATION_CONTEXT) {
        Some(i) => i,
        None => {
            return Err(
                KustoIdentityTokenError::ColumnNotFound(String::from_str(AUTHORIZATION_CONTEXT)),
            );
        },
    };
    proof {
        lemma_first_index_unique(column_names(table), AUTHORIZATION_CONTEXT@, index as int);
    }
    let QueryTable { columns: _, rows } = table;
    let mut rows = rows;
    if rows.len() != 1 {
        return Err(KustoIdentityTokenError::ExpectedOneRow(rows.len()));
    }
    let mut row = rows.pop().unwrap();
    if index >= row.len() {
        return Err(
            KustoIdentityTokenError::ColumnNotFound(String::from_str(AUTHORIZATION_CONTEXT)),
        );
    }
    let cell = row.swap_remove(index);
    token_from_cell(cell)
}

} // verus!
