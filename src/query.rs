//! The statement composer: each operation splices its fragment into the
//! statement text according to the clause that was appended last.
use vstd::prelude::*;
use crate::keyword::{BracketType, KeywordList, QueryType, Timezone, bracket_text, timezone_text};
use crate::number::{int_text, int_to_text};
use crate::sanitize::{is_injection, is_rejected, value_rejected};
use crate::text::{contains, join, join_exec, split, split_exec, str_contains, str_eq};
use crate::value::{ValueType, join_strings, value_text};

verus! {

/// Why an operation refused to change the statement.
#[derive(Clone, Copy, Debug, PartialEq, Eq, Structural)]
pub enum QueryError {
    /// An identifier or literal matched the denylist.
    Injection,
    /// A comparison operator other than `=`, `<`, `>`, `<=`, `>=`, `!=`, `<>`.
    InvalidOperator,
    /// A list that must hold at least one item was empty.
    EmptyList,
    /// An ordering other than `asc`, `desc`, `ASC` or `DESC`.
    InvalidOrdering,
    /// The statement is already ordered.
    DuplicateOrdering,
    /// A group was closed while none was open.
    NoOpenGroup,
    /// A second JSON extraction in the select list without an alias.
    AmbiguousExtract,
    /// The operation cannot follow the clause that was appended last.
    Misplaced,
    /// The text that the operation rewrites is not in the statement.
    MissingFragment,
    /// A JSON path was empty.
    InvalidPath,
    /// A schema name held a character that names cannot hold.
    InvalidName,
    /// A default value does not suit the column's type.
    TypeMismatch,
    /// A second primary key.
    DuplicatePrimaryKey,
    /// A column attribute came before any column.
    MissingColumn,
}

/// A statement under construction.
#[derive(Clone, Debug)]
pub struct QueryBuilder {
    /// The statement text so far, without the closing `;`.
    pub query: String,
    /// The table that `table` named last.
    pub table: String,
    pub qtype: QueryType,
    /// One tag per operation, oldest first; the last one decides where the
    /// next fragment goes.
    pub list: Vec<KeywordList>,
    /// The number of groups opened and not yet closed.
    pub depth: usize,
}

/// The tag that a statement of kind `q` starts with.
pub open spec fn kind_tag(q: QueryType) -> KeywordList {
    match q {
        QueryType::Select => KeywordList::Select,
        QueryType::Update => KeywordList::Update,
        QueryType::Delete => KeywordList::Delete,
        QueryType::Insert => KeywordList::Insert,
        QueryType::Count => KeywordList::Count,
        QueryType::Null => KeywordList::Finish,
        QueryType::Create => KeywordList::Create,
    }
}

pub open spec fn str_views(v: Seq<&str>) -> Seq<Seq<char>> {
    v.map_values(|s: &str| s@)
}

/// Some identifier of the list is rejected by the sanitizer.
pub open spec fn columns_rejected(v: Seq<&str>) -> bool {
    exists|i: int| 0 <= i < v.len() && is_rejected(#[trigger] v[i]@)
}

/// Some value of the list is rejected by the sanitizer.
pub open spec fn values_rejected(v: Seq<ValueType>) -> bool {
    exists|i: int| 0 <= i < v.len() && value_rejected(#[trigger] v[i])
}

/// `v1, v2, ...`
pub open spec fn values_list_text(v: Seq<ValueType>) -> Seq<char> {
    join(v.map_values(|x: ValueType| value_text(x)), ", "@)
}

/// The comparison operators that a predicate may use.
pub open spec fn is_mark(m: Seq<char>) -> bool {
    m == "="@ || m == "<"@ || m == ">"@ || m == "<="@ || m == ">="@ || m == "!="@ || m == "<>"@
}

/// The operator written for a comparison: against NULL, `=` becomes `IS`,
/// `!=` and `<>` become `IS NOT`, and any other operator `IS`.
pub open spec fn effective_mark(m: Seq<char>, v: ValueType) -> Seq<char> {
    if v is Null {
        if m == "="@ {
            "IS"@
        } else if m == "!="@ || m == "<>"@ {
            "IS NOT"@
        } else if m == "IS"@ || m == "IS NOT"@ {
            m
        } else {
            "IS"@
        }
    } else {
        m
    }
}

/// `column mark value`
pub open spec fn predicate_text(column: Seq<char>, mark: Seq<char>, v: ValueType) -> Seq<char> {
    column + " "@ + effective_mark(mark, v) + " "@ + value_text(v)
}

/// The error, if any, of a comparison on `column`: a bad operator first,
/// then a rejected column or value.
pub open spec fn comparison_error(column: Seq<char>, mark: Seq<char>, v: ValueType) -> Option<
    QueryError,
> {
    if !is_mark(mark) {
        Some(QueryError::InvalidOperator)
    } else if is_rejected(column) || value_rejected(v) {
        Some(QueryError::Injection)
    } else {
        None
    }
}

/// `SELECT f1, f2 FROM`, or `SELECT * FROM` when the first field is `*`.
pub open spec fn select_text(fields: Seq<&str>) -> Seq<char> {
    "SELECT "@ + (if fields[0]@ == "*"@ {
        "*"@
    } else {
        join(str_views(fields), ", "@)
    }) + " FROM"@
}

pub open spec fn min_len(a: int, b: int) -> int {
    if a < b {
        a
    } else {
        b
    }
}

/// `INSERT INTO (c1, c2) VALUES (v1, v2)`, pairing columns and values by
/// position and leaving out those without a partner.
pub open spec fn insert_text(columns: Seq<&str>, values: Seq<ValueType>) -> Seq<char> {
    let n = min_len(columns.len() as int, values.len() as int);
    "INSERT INTO ("@ + join(str_views(columns.take(n)), ", "@) + ") VALUES ("@ + values_list_text(
        values.take(n),
    ) + ")"@
}

/// `SELECT COUNT(condition) [AS name] FROM`
pub open spec fn count_text(condition: Seq<char>, alias: Option<Seq<char>>) -> Seq<char> {
    match alias {
        Some(a) => "SELECT COUNT("@ + condition + ") AS "@ + a + " FROM"@,
        None => "SELECT COUNT("@ + condition + ") FROM"@,
    }
}

/// The second piece of a split, or nothing when there is none.
pub open spec fn second_piece(pieces: Seq<Seq<char>>) -> Seq<char> {
    if pieces.len() >= 2 {
        pieces[1]
    } else {
        Seq::empty()
    }
}

/// The text after naming table `t`: appended, or, in an insert, placed
/// after `INSERT INTO`.
pub open spec fn table_text(qtype: QueryType, query: Seq<char>, t: Seq<char>) -> Seq<char> {
    if qtype is Insert {
        "INSERT INTO "@ + t + " "@ + second_piece(split(query, " INTO "@))
    } else {
        query + " "@ + t
    }
}

/// `column op (v1, v2)` after `lead`.
pub open spec fn in_list_text(lead: Seq<char>, column: Seq<char>, op: Seq<char>, values: Seq<ValueType>) -> Seq<char> {
    lead + column + op + "("@ + values_list_text(values) + ")"@
}

/// The fragment that `set` appends: a new SET clause, or one more
/// assignment when the last clause was a SET.
pub open spec fn set_text(last: KeywordList, column: Seq<char>, v: ValueType) -> Seq<char> {
    if last == KeywordList::SetClause {
        ", "@ + column + " = "@ + value_text(v)
    } else {
        " SET "@ + column + " = "@ + value_text(v)
    }
}

/// `ASC` or `DESC` for the orderings that are accepted.
pub open spec fn ordering_word(o: Seq<char>) -> Option<Seq<char>> {
    if o == "asc"@ || o == "ASC"@ {
        Some("ASC"@)
    } else if o == "desc"@ || o == "DESC"@ {
        Some("DESC"@)
    } else {
        None
    }
}

/// The fragment that `order_by` appends: a new ORDER BY clause, or one more
/// key when the last clause was an ordering.
pub open spec fn order_text(last: KeywordList, column: Seq<char>, word: Seq<char>) -> Seq<char> {
    if last == KeywordList::OrderBy || last == KeywordList::Field {
        ", "@ + column + " "@ + word
    } else {
        " ORDER BY "@ + column + " "@ + word
    }
}

/// `column LIKE '%operand%'`
pub open spec fn like_item(column: Seq<char>, operand: Seq<char>) -> Seq<char> {
    column + " LIKE '%"@ + operand + "%'"@
}

pub open spec fn like_items(columns: Seq<&str>, operand: Seq<char>) -> Seq<Seq<char>> {
    columns.map_values(|c: &str| like_item(c@, operand))
}

/// The fragment that `like` appends: after a WHERE-family clause, joined to
/// it with AND (several columns in one parenthesised OR group); right after
/// an opened group, inside it; elsewhere, as a new WHERE clause of OR-ed
/// matches.
pub open spec fn like_text(last: KeywordList, columns: Seq<&str>, operand: Seq<char>) -> Seq<char> {
    let items = like_items(columns, operand);
    if last == KeywordList::Where || last == KeywordList::WhereIn || last
        == KeywordList::WhereNotIn {
        if columns.len() == 1 {
            " AND "@ + items[0]
        } else {
            " AND ("@ + join(items, " OR "@) + ")"@
        }
    } else if last == KeywordList::LeftBracketWhere || last == KeywordList::LeftBracketAnd || last
        == KeywordList::LeftBracketOr {
        join(items, ", AND "@)
    } else {
        " WHERE "@ + join(items, " OR "@)
    }
}

/// `FIELD(column, 'a', 'b')`
pub open spec fn field_text(column: Seq<char>, ordering: Seq<&str>) -> Seq<char> {
    "FIELD("@ + column + ", "@ + join(
        ordering.map_values(|o: &str| "'"@ + o@ + "'"@),
        ", "@,
    ) + ")"@
}

/// The text after `order_by_field`, or `None` when it follows an ordering
/// whose ORDER BY cannot be found.
pub open spec fn order_field_text(query: Seq<char>, last: KeywordList, field: Seq<char>) -> Option<Seq<char>> {
    if last == KeywordList::OrderBy {
        let pieces = split(query, " ORDER BY "@);
        if pieces.len() >= 2 {
            Some(pieces[0] + " ORDER BY "@ + pieces[1] + ", "@ + field)
        } else {
            None
        }
    } else if last == KeywordList::Field {
        Some(query + ", "@ + field)
    } else {
        Some(query + " ORDER BY "@ + field)
    }
}

/// ` UNION (q1) UNION (q2)`, with `keyword` standing for ` UNION ` or
/// ` UNION ALL `.
pub open spec fn union_tail(others: Seq<QueryBuilder>, keyword: Seq<char>) -> Seq<char>
    decreases others.len(),
{
    if others.len() == 0 {
        Seq::empty()
    } else {
        union_tail(others.drop_last(), keyword) + keyword + "("@ + others.last().query@ + ")"@
    }
}

/// The text after a union: the statement so far is put in parentheses,
/// unless the last clause was already a union.
pub open spec fn union_text(query: Seq<char>, last: KeywordList, others: Seq<QueryBuilder>, keyword: Seq<char>) -> Seq<char> {
    if last == KeywordList::Union || last == KeywordList::UnionAll {
        query + union_tail(others, keyword)
    } else {
        "("@ + query + ")"@ + union_tail(others, keyword)
    }
}

pub open spec fn open_tag(b: BracketType) -> KeywordList {
    match b {
        BracketType::Where => KeywordList::LeftBracketWhere,
        BracketType::And => KeywordList::LeftBracketAnd,
        BracketType::Or => KeywordList::LeftBracketOr,
    }
}

impl QueryBuilder {
    /// The composer's invariant: it has its leading tag, which matches the
    /// kind of statement it builds.
    pub open spec fn wf(&self) -> bool {
        &&& self.list@.len() >= 1
        &&& self.list@[0] == kind_tag(self.qtype)
        &&& !(self.qtype is Null)
        &&& !(self.qtype is Create)
    }

    pub open spec fn last_tag(&self) -> KeywordList {
        self.list@.last()
    }

    /// `new` is `old` with `text` appended and `tag` recorded.
    pub open spec fn appended(old: QueryBuilder, new: QueryBuilder, text: Seq<char>, tag: KeywordList) -> bool {
        &&& new.query@ == old.query@ + text
        &&& new.list@ == old.list@.push(tag)
        &&& new.table@ == old.table@
        &&& new.qtype == old.qtype
        &&& new.depth == old.depth
    }

    /// `new` is `old` with its text replaced by `text` and `tag` recorded.
    pub open spec fn rewritten(old: QueryBuilder, new: QueryBuilder, text: Seq<char>, tag: KeywordList) -> bool {
        &&& new.query@ == text
        &&& new.list@ == old.list@.push(tag)
        &&& new.table@ == old.table@
        &&& new.qtype == old.qtype
        &&& new.depth == old.depth
    }

    fn fresh(query: String, qtype: QueryType, tag: KeywordList) -> (r: QueryBuilder)
        ensures
            r.query@ == query@,
            r.table@ == Seq::<char>::empty(),
            r.qtype == qtype,
            r.list@ == seq![tag],
            r.depth == 0,
    {
        let mut list: Vec<KeywordList> = Vec::new();
        list.push(tag);
        QueryBuilder { query, table: String::new(), qtype, list, depth: 0 }
    }

    pub(crate) fn last(&self) -> (r: KeywordList)
        requires
            self.list@.len() >= 1,
        ensures
            r == self.last_tag(),
    {
        self.list[self.list.len() - 1]
    }

    /// Appends `text` to the statement and records `tag`.
    pub(crate) fn push_text(&mut self, text: &str, tag: KeywordList)
        ensures
            Self::appended(*old(self), *final(self), text@, tag),
    {
        self.query.append(text);
        self.list.push(tag);
    }

    /// Replaces the statement text and records `tag`.
    pub(crate) fn set_query(&mut self, text: String, tag: KeywordList)
        ensures
            Self::rewritten(*old(self), *final(self), text@, tag),
    {
        self.query = text;
        self.list.push(tag);
    }

    /// Checks one identifier or literal against the denylist.
    pub fn sanitize_str(input: &str) -> (r: Result<(), QueryError>)
        ensures
            r is Err <==> is_rejected(input@),
            r matches Err(e) ==> e == QueryError::Injection,
    {
        if is_injection(input) {
            Err(QueryError::Injection)
        } else {
            Ok(())
        }
    }

    /// Checks a column name against the denylist.
    pub fn sanitize_column(column: &str) -> (r: Result<(), QueryError>)
        ensures
            r is Err <==> is_rejected(column@),
            r matches Err(e) ==> e == QueryError::Injection,
    {
        Self::sanitize_str(column)
    }

    /// Checks a list of identifiers against the denylist.
    pub fn sanitize_columns(columns: &Vec<&str>) -> (r: Result<(), QueryError>)
        ensures
            r is Err <==> columns_rejected(columns@),
            r matches Err(e) ==> e == QueryError::Injection,
    {
        let mut i: usize = 0;
        while i < columns.len()
            invariant
                i <= columns@.len(),
                forall|k: int| 0 <= k < i ==> !is_rejected(#[trigger] columns@[k]@),
            decreases columns@.len() - i,
        {
            if is_injection(columns[i]) {
                return Err(QueryError::Injection);
            }
            i = i + 1;
        }
        Ok(())
    }

    /// Checks the text of a string or datetime value against the denylist.
    pub fn sanitize_input(input: &ValueType) -> (r: Result<(), QueryError>)
        ensures
            r is Err <==> value_rejected(*input),
            r matches Err(e) ==> e == QueryError::Injection,
    {
        match input {
            ValueType::String(s) => Self::sanitize_str(s.as_str()),
            ValueType::Datetime(s) => Self::sanitize_str(s.as_str()),
            _ => Ok(()),
        }
    }

    /// Checks the texts of a list of values against the denylist.
    pub fn sanitize_inputs(inputs: &Vec<ValueType>) -> (r: Result<(), QueryError>)
        ensures
            r is Err <==> values_rejected(inputs@),
            r matches Err(e) ==> e == QueryError::Injection,
    {
        let mut i: usize = 0;
        while i < inputs.len()
            invariant
                i <= inputs@.len(),
                forall|k: int| 0 <= k < i ==> !value_rejected(#[trigger] inputs@[k]),
            decreases inputs@.len() - i,
        {
            if Self::sanitize_input(&inputs[i]).is_err() {
                return Err(QueryError::Injection);
            }
            i = i + 1;
        }
        Ok(())
    }

    /// Accepts only the comparison operators `=`, `<`, `>`, `<=`, `>=`, `!=`, `<>`.
    pub fn sanitize_mark(input: &str) -> (r: Result<(), QueryError>)
        ensures
            r is Ok <==> is_mark(input@),
            r matches Err(e) ==> e == QueryError::InvalidOperator,
    {
        if str_eq(input, "=") || str_eq(input, "<") || str_eq(input, ">") || str_eq(input, "<=")
            || str_eq(input, ">=") || str_eq(input, "!=") || str_eq(input, "<>") {
            Ok(())
        } else {
            Err(QueryError::InvalidOperator)
        }
    }

    fn check_comparison(column: &str, mark: &str, value: &ValueType) -> (r: Result<(), QueryError>)
        ensures
            r is Err <==> comparison_error(column@, mark@, *value) is Some,
            r matches Err(e) ==> comparison_error(column@, mark@, *value) == Some(e),
    {
        Self::sanitize_mark(mark)?;
        Self::sanitize_column(column)?;
        Self::sanitize_input(value)?;
        Ok(())
    }

    fn predicate(column: &str, mark: &str, value: &ValueType) -> (r: String)
        ensures
            r@ == predicate_text(column@, mark@, *value),
    {
        let m: &str = match value {
            ValueType::Null => {
                if str_eq(mark, "=") {
                    "IS"
                } else if str_eq(mark, "!=") || str_eq(mark, "<>") {
                    "IS NOT"
                } else if str_eq(mark, "IS") || str_eq(mark, "IS NOT") {
                    mark
                } else {
                    "IS"
                }
            },
            _ => mark,
        };
        let mut r = String::from_str(column);
        r.append(" ");
        r.append(m);
        r.append(" ");
        let v = value.to_string();
        r.append(v.as_str());
        r
    }

    fn values_list(values: &Vec<ValueType>) -> (r: String)
        ensures
            r@ == values_list_text(values@),
    {
        let mut parts: Vec<String> = Vec::new();
        let mut i: usize = 0;
        while i < values.len()
            invariant
                i <= values@.len(),
                parts@.len() == i,
                forall|k: int| 0 <= k < i ==> #[trigger] parts@[k]@ == value_text(values@[k]),
            decreases values@.len() - i,
        {
            parts.push(values[i].to_string());
            i = i + 1;
        }
        let r = join_strings(&parts, ", ");
        assert(parts@.map_values(|x: String| x@) =~= values@.map_values(
            |x: ValueType| value_text(x),
        ));
        r
    }

    /// Starts a SELECT statement over the given fields.
    pub fn select(fields: Vec<&str>) -> (r: Result<QueryBuilder, QueryError>)
        ensures
            fields@.len() == 0 ==> r == Err::<QueryBuilder, QueryError>(QueryError::EmptyList),
            fields@.len() > 0 && columns_rejected(fields@) ==> r == Err::<QueryBuilder, QueryError>(
                QueryError::Injection,
            ),
            fields@.len() > 0 && !columns_rejected(fields@) ==> (r matches Ok(q) && q.wf()
                && q.query@ == select_text(fields@) && q.qtype == QueryType::Select && q.list@
                == seq![KeywordList::Select] && q.table@.len() == 0 && q.depth == 0),
    {
        if fields.len() == 0 {
            return Err(QueryError::EmptyList);
        }
        Self::sanitize_columns(&fields)?;
        let mut query = String::from_str("SELECT ");
        if str_eq(fields[0], "*") {
            query.append("*");
        } else {
            let list = join_exec(&fields, ", ");
            assert(fields@.map_values(|x: &str| x@) == str_views(fields@));
            query.append(list.as_str());
        }
        query.append(" FROM");
        Ok(Self::fresh(query, QueryType::Select, KeywordList::Select))
    }

    /// Starts a DELETE statement.
    pub fn delete() -> (r: Result<QueryBuilder, QueryError>)
        ensures
            r matches Ok(q) && q.wf() && q.query@ == "DELETE FROM"@ && q.qtype == QueryType::Delete
                && q.list@ == seq![KeywordList::Delete] && q.table@.len() == 0 && q.depth == 0,
    {
        Ok(Self::fresh(String::from_str("DELETE FROM"), QueryType::Delete, KeywordList::Delete))
    }

    /// Starts an UPDATE statement.
    pub fn update() -> (r: Result<QueryBuilder, QueryError>)
        ensures
            r matches Ok(q) && q.wf() && q.query@ == "UPDATE"@ && q.qtype == QueryType::Update
                && q.list@ == seq![KeywordList::Update] && q.table@.len() == 0 && q.depth == 0,
    {
        Ok(Self::fresh(String::from_str("UPDATE"), QueryType::Update, KeywordList::Update))
    }

    /// Starts an INSERT statement of the given columns and values.
    pub fn insert(columns: Vec<&str>, values: Vec<ValueType>) -> (r: Result<QueryBuilder, QueryError>)
        ensures
            values@.len() == 0 ==> r == Err::<QueryBuilder, QueryError>(QueryError::EmptyList),
            values@.len() > 0 && (columns_rejected(columns@) || values_rejected(values@)) ==> r
                == Err::<QueryBuilder, QueryError>(QueryError::Injection),
            values@.len() > 0 && !columns_rejected(columns@) && !values_rejected(values@) ==> (r matches Ok(q)
                && q.wf() && q.query@ == insert_text(columns@, values@) && q.qtype
                == QueryType::Insert && q.list@ == seq![KeywordList::Insert] && q.table@.len() == 0
                && q.depth == 0),
    {
        if values.len() == 0 {
            return Err(QueryError::EmptyList);
        }
        Self::sanitize_columns(&columns)?;
        Self::sanitize_inputs(&values)?;
        let n = if columns.len() < values.len() {
            columns.len()
        } else {
            values.len()
        };
        let mut cols: Vec<&str> = Vec::new();
        let mut vals: Vec<String> = Vec::new();
        let mut i: usize = 0;
        while i < n
            invariant
                n == min_len(columns@.len() as int, values@.len() as int),
                i <= n,
                cols@ == columns@.take(i as int),
                vals@.len() == i,
                forall|k: int| 0 <= k < i ==> #[trigger] vals@[k]@ == value_text(values@[k]),
            decreases n - i,
        {
            cols.push(columns[i]);
            vals.push(values[i].to_string());
            proof {
                assert(cols@ =~= columns@.take(i + 1));
            }
            i = i + 1;
        }
        let col_list = join_exec(&cols, ", ");
        let val_list = join_strings(&vals, ", ");
        assert(vals@.map_values(|x: String| x@) =~= values@.take(n as int).map_values(
            |x: ValueType| value_text(x),
        ));
        assert(cols@.map_values(|x: &str| x@) == str_views(columns@.take(n as int)));
        let mut query = String::from_str("INSERT INTO (");
        query.append(col_list.as_str());
        query.append(") VALUES (");
        query.append(val_list.as_str());
        query.append(")");
        Ok(Self::fresh(query, QueryType::Insert, KeywordList::Insert))
    }

    /// Starts a `SELECT COUNT(...)` statement.
    pub fn count(condition: &str, _as: Option<&str>) -> (r: QueryBuilder)
        ensures
            r.wf(),
            r.query@ == count_text(condition@, match _as { Some(a) => Some(a@), None => None }),
            r.qtype == QueryType::Count,
            r.list@ == seq![KeywordList::Count],
            r.table@.len() == 0,
            r.depth == 0,
    {
        let mut query = String::from_str("SELECT COUNT(");
        query.append(condition);
        match _as {
            Some(a) => {
                query.append(") AS ");
                query.append(a);
                query.append(" FROM");
            },
            None => {
                query.append(") FROM");
            },
        }
        Self::fresh(query, QueryType::Count, KeywordList::Count)
    }

    /// Names the table the statement works on.
    pub fn table(&mut self, table: &str) -> (r: &mut Self)
        requires
            old(self).wf(),
        ensures
            r.wf(),
            r.query@ == table_text(old(self).qtype, old(self).query@, table@),
            r.table@ == table@,
            r.list@ == old(self).list@.push(KeywordList::Table),
            r.qtype == old(self).qtype,
            r.depth == old(self).depth,
            *final(self) == *final(r),
    {
        let text = match self.qtype {
            QueryType::Insert => {
                proof {
                    reveal_strlit(" INTO ");
                }
                let pieces = split_exec(self.query.as_str(), " INTO ");
                let mut t = String::from_str("INSERT INTO ");
                t.append(table);
                t.append(" ");
                if pieces.len() >= 2 {
                    t.append(pieces[1]);
                }
                t
            },
            _ => {
                let mut t = self.query.clone();
                t.append(" ");
                t.append(table);
                t
            },
        };
        assert(text@ =~= table_text(self.qtype, self.query@, table@));
        self.query = text;
        self.table = String::from_str(table);
        self.list.push(KeywordList::Table);
        self
    }

    fn comparison(&mut self, lead: &str, column: &str, mark: &str, value: &ValueType, tag: KeywordList) -> (r: Result<(), QueryError>)
        ensures
            r is Err <==> comparison_error(column@, mark@, *value) is Some,
            r matches Err(e) ==> comparison_error(column@, mark@, *value) == Some(e) && *final(self)
                == *old(self),
            r is Ok ==> Self::appended(
                *old(self),
                *final(self),
                lead@ + predicate_text(column@, mark@, *value),
                tag,
            ),
    {
        Self::check_comparison(column, mark, value)?;
        let mut text = String::from_str(lead);
        let p = Self::predicate(column, mark, value);
        text.append(p.as_str());
        self.push_text(text.as_str(), tag);
        Ok(())
    }

    /// Adds a WHERE clause `column mark value`.
    pub fn where_(&mut self, column: &str, mark: &str, value: ValueType) -> (r: Result<&mut Self, QueryError>)
        ensures
            r is Err <==> comparison_error(column@, mark@, value) is Some,
            r matches Err(e) ==> comparison_error(column@, mark@, value) == Some(e) && *final(self)
                == *old(self),
            r matches Ok(b) ==> Self::appended(
                *old(self),
                *b,
                " WHERE "@ + predicate_text(column@, mark@, value),
                KeywordList::Where,
            ) && *final(self) == *final(b),
    {
        self.comparison(" WHERE ", column, mark, &value, KeywordList::Where)?;
        Ok(self)
    }

    /// Adds ` AND column mark value`.
    pub fn and(&mut self, column: &str, mark: &str, value: ValueType) -> (r: Result<&mut Self, QueryError>)
        ensures
            r is Err <==> comparison_error(column@, mark@, value) is Some,
            r matches Err(e) ==> comparison_error(column@, mark@, value) == Some(e) && *final(self)
                == *old(self),
            r matches Ok(b) ==> Self::appended(
                *old(self),
                *b,
                " AND "@ + predicate_text(column@, mark@, value),
                KeywordList::And,
            ) && *final(self) == *final(b),
    {
        self.comparison(" AND ", column, mark, &value, KeywordList::And)?;
        Ok(self)
    }

    /// Adds ` OR column mark value`.
    pub fn or(&mut self, column: &str, mark: &str, value: ValueType) -> (r: Result<&mut Self, QueryError>)
        ensures
            r is Err <==> comparison_error(column@, mark@, value) is Some,
            r matches Err(e) ==> comparison_error(column@, mark@, value) == Some(e) && *final(self)
                == *old(self),
            r matches Ok(b) ==> Self::appended(
                *old(self),
                *b,
                " OR "@ + predicate_text(column@, mark@, value),
                KeywordList::Or,
            ) && *final(self) == *final(b),
    {
        self.comparison(" OR ", column, mark, &value, KeywordList::Or)?;
        Ok(self)
    }

    /// Adds a HAVING clause `column mark value`.
    pub fn having(&mut self, column: &str, mark: &str, value: ValueType) -> (r: Result<&mut Self, QueryError>)
        ensures
            r is Err <==> comparison_error(column@, mark@, value) is Some,
            r matches Err(e) ==> comparison_error(column@, mark@, value) == Some(e) && *final(self)
                == *old(self),
            r matches Ok(b) ==> Self::appended(
                *old(self),
                *b,
                " HAVING "@ + predicate_text(column@, mark@, value),
                KeywordList::Having,
            ) && *final(self) == *final(b),
    {
        self.comparison(" HAVING ", column, mark, &value, KeywordList::Having)?;
        Ok(self)
    }

    /// Assigns `value` to `column`: a SET clause, or one more assignment of
    /// the SET clause appended last.
    pub fn set(&mut self, column: &str, value: ValueType) -> (r: Result<&mut Self, QueryError>)
        requires
            old(self).wf(),
        ensures
            r is Err <==> is_rejected(column@) || value_rejected(value),
            r matches Err(e) ==> e == QueryError::Injection && *final(self) == *old(self),
            r matches Ok(b) ==> b.wf() && Self::appended(
                *old(self),
                *b,
                set_text(old(self).last_tag(), column@, value),
                KeywordList::SetClause,
            ) && *final(self) == *final(b),
    {
        Self::sanitize_column(column)?;
        Self::sanitize_input(&value)?;
        let mut text = match self.last() {
            KeywordList::SetClause => String::from_str(", "),
            _ => String::from_str(" SET "),
        };
        text.append(column);
        text.append(" = ");
        let v = value.to_string();
        text.append(v.as_str());
        self.push_text(text.as_str(), KeywordList::SetClause);
        Ok(self)
    }

    fn in_list(&mut self, lead: &str, column: &str, op: &str, ins: &Vec<ValueType>, tag: KeywordList) -> (r: Result<(), QueryError>)
        ensures
            r is Err <==> ins@.len() == 0,
            r matches Err(e) ==> e == QueryError::EmptyList && *final(self) == *old(self),
            r is Ok ==> Self::appended(*old(self), *final(self), in_list_text(lead@, column@, op@, ins@), tag),
    {
        if ins.len() == 0 {
            return Err(QueryError::EmptyList);
        }
        let mut text = String::from_str(lead);
        text.append(column);
        text.append(op);
        text.append("(");
        let list = Self::values_list(ins);
        text.append(list.as_str());
        text.append(")");
        self.push_text(text.as_str(), tag);
        Ok(())
    }

    fn in_custom(&mut self, lead: &str, column: &str, op: &str, query: &str, tag: KeywordList)
        ensures
            Self::appended(*old(self), *final(self), lead@ + column@ + op@ + "("@ + query@ + ")"@, tag),
    {
        let mut text = String::from_str(lead);
        text.append(column);
        text.append(op);
        text.append("(");
        text.append(query);
        text.append(")");
        self.push_text(text.as_str(), tag);
    }

    /// Adds ` WHERE column IN (v1, v2, ...)`.
    pub fn where_in(&mut self, column: &str, ins: &Vec<ValueType>) -> (r: Result<&mut Self, QueryError>)
        ensures
            r is Err <==> ins@.len() == 0,
            r matches Err(e) ==> e == QueryError::EmptyList && *final(self) == *old(self),
            r matches Ok(b) ==> Self::appended(*old(self), *b, in_list_text(" WHERE "@, column@, " IN "@, ins@), KeywordList::WhereIn)
                && *final(self) == *final(b),
    {
        self.in_list(" WHERE ", column, " IN ", ins, KeywordList::WhereIn)?;
        Ok(self)
    }

    /// Adds ` WHERE column NOT IN (v1, v2, ...)`.
    pub fn where_not_in(&mut self, column: &str, ins: &Vec<ValueType>) -> (r: Result<&mut Self, QueryError>)
        ensures
            r is Err <==> ins@.len() == 0,
            r matches Err(e) ==> e == QueryError::EmptyList && *final(self) == *old(self),
            r matches Ok(b) ==> Self::appended(*old(self), *b, in_list_text(" WHERE "@, column@, " NOT IN "@, ins@), KeywordList::WhereNotIn)
                && *final(self) == *final(b),
    {
        self.in_list(" WHERE ", column, " NOT IN ", ins, KeywordList::WhereNotIn)?;
        Ok(self)
    }

    /// Adds ` AND column IN (v1, v2, ...)`.
    pub fn and_in(&mut self, column: &str, ins: &Vec<ValueType>) -> (r: Result<&mut Self, QueryError>)
        ensures
            r is Err <==> ins@.len() == 0,
            r matches Err(e) ==> e == QueryError::EmptyList && *final(self) == *old(self),
            r matches Ok(b) ==> Self::appended(*old(self), *b, in_list_text(" AND "@, column@, " IN "@, ins@), KeywordList::AndIn)
                && *final(self) == *final(b),
    {
        self.in_list(" AND ", column, " IN ", ins, KeywordList::AndIn)?;
        Ok(self)
    }

    /// Adds ` AND column NOT IN (v1, v2, ...)`.
    pub fn and_not_in(&mut self, column: &str, ins: &Vec<ValueType>) -> (r: Result<&mut Self, QueryError>)
        ensures
            r is Err <==> ins@.len() == 0,
            r matches Err(e) ==> e == QueryError::EmptyList && *final(self) == *old(self),
            r matches Ok(b) ==> Self::appended(*old(self), *b, in_list_text(" AND "@, column@, " NOT IN "@, ins@), KeywordList::AndNotIn)
                && *final(self) == *final(b),
    {
        self.in_list(" AND ", column, " NOT IN ", ins, KeywordList::AndNotIn)?;
        Ok(self)
    }

    /// Adds ` OR column IN (v1, v2, ...)`; recorded like its AND form.
    pub fn or_in(&mut self, column: &str, ins: &Vec<ValueType>) -> (r: Result<&mut Self, QueryError>)
        ensures
            r is Err <==> ins@.len() == 0,
            r matches Err(e) ==> e == QueryError::EmptyList && *final(self) == *old(self),
            r matches Ok(b) ==> Self::appended(*old(self), *b, in_list_text(" OR "@, column@, " IN "@, ins@), KeywordList::AndIn)
                && *final(self) == *final(b),
    {
        self.in_list(" OR ", column, " IN ", ins, KeywordList::AndIn)?;
        Ok(self)
    }

    /// Adds ` OR column NOT IN (v1, v2, ...)`; recorded like its AND form.
    pub fn or_not_in(&mut self, column: &str, ins: &Vec<ValueType>) -> (r: Result<&mut Self, QueryError>)
        ensures
            r is Err <==> ins@.len() == 0,
            r matches Err(e) ==> e == QueryError::EmptyList && *final(self) == *old(self),
            r matches Ok(b) ==> Self::appended(*old(self), *b, in_list_text(" OR "@, column@, " NOT IN "@, ins@), KeywordList::AndNotIn)
                && *final(self) == *final(b),
    {
        self.in_list(" OR ", column, " NOT IN ", ins, KeywordList::AndNotIn)?;
        Ok(self)
    }

    /// Adds ` WHERE column IN (query)` with a list or subquery written by the caller.
    pub fn where_in_custom(&mut self, column: &str, query: &str) -> (r: &mut Self)
        ensures
            Self::appended(*old(self), *r, " WHERE "@ + column@ + " IN "@ + "("@ + query@ + ")"@, KeywordList::WhereIn),
            *final(self) == *final(r),
    {
        self.in_custom(" WHERE ", column, " IN ", query, KeywordList::WhereIn);
        self
    }

    /// Adds ` WHERE column NOT IN (query)`.
    pub fn where_not_in_custom(&mut self, column: &str, query: &str) -> (r: &mut Self)
        ensures
            Self::appended(*old(self), *r, " WHERE "@ + column@ + " NOT IN "@ + "("@ + query@ + ")"@, KeywordList::WhereNotIn),
            *final(self) == *final(r),
    {
        self.in_custom(" WHERE ", column, " NOT IN ", query, KeywordList::WhereNotIn);
        self
    }

    /// Adds ` AND column IN (query)`.
    pub fn and_in_custom(&mut self, column: &str, query: &str) -> (r: &mut Self)
        ensures
            Self::appended(*old(self), *r, " AND "@ + column@ + " IN "@ + "("@ + query@ + ")"@, KeywordList::AndIn),
            *final(self) == *final(r),
    {
        self.in_custom(" AND ", column, " IN ", query, KeywordList::AndIn);
        self
    }

    /// Adds ` AND column NOT IN (query)`.
    pub fn and_not_in_custom(&mut self, column: &str, query: &str) -> (r: &mut Self)
        ensures
            Self::appended(*old(self), *r, " AND "@ + column@ + " NOT IN "@ + "("@ + query@ + ")"@, KeywordList::AndNotIn),
            *final(self) == *final(r),
    {
        self.in_custom(" AND ", column, " NOT IN ", query, KeywordList::AndNotIn);
        self
    }

    /// Adds ` OR column IN (query)`.
    pub fn or_in_custom(&mut self, column: &str, query: &str) -> (r: &mut Self)
        ensures
            Self::appended(*old(self), *r, " OR "@ + column@ + " IN "@ + "("@ + query@ + ")"@, KeywordList::AndIn),
            *final(self) == *final(r),
    {
        self.in_custom(" OR ", column, " IN ", query, KeywordList::AndIn);
        self
    }

    /// Adds ` OR column NOT IN (query)`.
    pub fn or_not_in_custom(&mut self, column: &str, query: &str) -> (r: &mut Self)
        ensures
            Self::appended(*old(self), *r, " OR "@ + column@ + " NOT IN "@ + "("@ + query@ + ")"@, KeywordList::AndNotIn),
            *final(self) == *final(r),
    {
        self.in_custom(" OR ", column, " NOT IN ", query, KeywordList::AndNotIn);
        self
    }
}


impl QueryBuilder {
    /// Opens a parenthesised group: ` WHERE (`, ` AND (` or ` OR (`.
    pub fn open_parenthesis(&mut self, parenthesis_type: BracketType) -> (r: &mut Self)
        requires
            old(self).depth < usize::MAX,
        ensures
            r.query@ == old(self).query@ + " "@ + bracket_text(parenthesis_type) + " ("@,
            r.list@ == old(self).list@.push(open_tag(parenthesis_type)),
            r.depth == old(self).depth + 1,
            r.table@ == old(self).table@,
            r.qtype == old(self).qtype,
            *final(self) == *final(r),
    {
        let mut text = String::from_str(" ");
        let word = parenthesis_type.to_string();
        text.append(word.as_str());
        text.append(" (");
        let tag = match parenthesis_type {
            BracketType::Where => KeywordList::LeftBracketWhere,
            BracketType::And => KeywordList::LeftBracketAnd,
            BracketType::Or => KeywordList::LeftBracketOr,
        };
        self.push_text(text.as_str(), tag);
        self.depth = self.depth + 1;
        self
    }

    /// Opens a parenthesised group that starts with `column mark value`.
    pub fn open_parenthesis_with(&mut self, parenthesis_type: BracketType, column: &str, mark: &str, value: ValueType) -> (r: Result<&mut Self, QueryError>)
        requires
            old(self).depth < usize::MAX,
        ensures
            r is Err <==> comparison_error(column@, mark@, value) is Some,
            r matches Err(e) ==> comparison_error(column@, mark@, value) == Some(e) && *final(self)
                == *old(self),
            r matches Ok(b) ==> b.query@ == old(self).query@ + " "@ + bracket_text(parenthesis_type)
                + " ("@ + predicate_text(column@, mark@, value) && b.list@ == old(self).list@.push(
                open_tag(parenthesis_type),
            ) && b.depth == old(self).depth + 1 && b.table@ == old(self).table@ && b.qtype == old(
                self,
            ).qtype && *final(self) == *final(b),
    {
        Self::check_comparison(column, mark, &value)?;
        let mut text = String::from_str(" ");
        let word = parenthesis_type.to_string();
        text.append(word.as_str());
        text.append(" (");
        let p = Self::predicate(column, mark, &value);
        text.append(p.as_str());
        let tag = match parenthesis_type {
            BracketType::Where => KeywordList::LeftBracketWhere,
            BracketType::And => KeywordList::LeftBracketAnd,
            BracketType::Or => KeywordList::LeftBracketOr,
        };
        self.push_text(text.as_str(), tag);
        self.depth = self.depth + 1;
        Ok(self)
    }

    /// Closes the group opened last.
    pub fn close_parenthesis(&mut self) -> (r: Result<&mut Self, QueryError>)
        ensures
            r is Err <==> old(self).depth == 0,
            r matches Err(e) ==> e == QueryError::NoOpenGroup && *final(self) == *old(self),
            r matches Ok(b) ==> b.query@ == old(self).query@ + ")"@ && b.depth == old(self).depth - 1
                && b.list@ == old(self).list@ && b.table@ == old(self).table@ && b.qtype == old(
                self,
            ).qtype && *final(self) == *final(b),
    {
        if self.depth == 0 {
            return Err(QueryError::NoOpenGroup);
        }
        self.query.append(")");
        self.depth = self.depth - 1;
        Ok(self)
    }

    fn prefix_time_zone(&mut self, lead: &str, timezone: Timezone, tag: KeywordList)
        requires
            old(self).wf(),
        ensures
            final(self).wf(),
            final(self).query@ == lead@ + timezone_text(timezone) + "; "@ + old(self).query@,
            final(self).list@ == old(self).list@.insert(1, tag),
            final(self).table@ == old(self).table@,
            final(self).qtype == old(self).qtype,
            final(self).depth == old(self).depth,
    {
        let mut text = String::from_str(lead);
        let name = timezone.to_string();
        text.append(name.as_str());
        text.append("; ");
        text.append(self.query.as_str());
        self.query = text;
        self.list.insert(1, tag);
    }

    /// Puts `SET time_zone = zone;` before the statement.
    pub fn time_zone(&mut self, timezone: Timezone) -> (r: &mut Self)
        requires
            old(self).wf(),
        ensures
            r.wf(),
            r.query@ == "SET time_zone = "@ + timezone_text(timezone) + "; "@ + old(self).query@,
            r.list@ == old(self).list@.insert(1, KeywordList::Timezone),
            r.table@ == old(self).table@,
            r.qtype == old(self).qtype,
            r.depth == old(self).depth,
            *final(self) == *final(r),
    {
        self.prefix_time_zone("SET time_zone = ", timezone, KeywordList::Timezone);
        self
    }

    /// Puts `SET GLOBAL time_zone = zone;` before the statement.
    pub fn global_time_zone(&mut self, timezone: Timezone) -> (r: &mut Self)
        requires
            old(self).wf(),
        ensures
            r.wf(),
            r.query@ == "SET GLOBAL time_zone = "@ + timezone_text(timezone) + "; "@ + old(self).query@,
            r.list@ == old(self).list@.insert(1, KeywordList::GlobalTimezone),
            r.table@ == old(self).table@,
            r.qtype == old(self).qtype,
            r.depth == old(self).depth,
            *final(self) == *final(r),
    {
        self.prefix_time_zone("SET GLOBAL time_zone = ", timezone, KeywordList::GlobalTimezone);
        self
    }

    /// Adds ` OFFSET n`.
    pub fn offset(&mut self, offset: i32) -> (r: &mut Self)
        ensures
            Self::appended(*old(self), *r, " OFFSET "@ + int_text(offset as int), KeywordList::Offset),
            *final(self) == *final(r),
    {
        let mut text = String::from_str(" OFFSET ");
        let n = int_to_text(offset as i128);
        text.append(n.as_str());
        self.push_text(text.as_str(), KeywordList::Offset);
        self
    }

    /// Adds ` LIMIT n`.
    pub fn limit(&mut self, limit: i32) -> (r: &mut Self)
        ensures
            Self::appended(*old(self), *r, " LIMIT "@ + int_text(limit as int), KeywordList::Limit),
            *final(self) == *final(r),
    {
        let mut text = String::from_str(" LIMIT ");
        let n = int_to_text(limit as i128);
        text.append(n.as_str());
        self.push_text(text.as_str(), KeywordList::Limit);
        self
    }

    /// Matches `operand` anywhere in the given columns with LIKE; where the
    /// matches go depends on the clause appended last (see `like_text`).
    pub fn like(&mut self, columns: Vec<&str>, operand: &str) -> (r: Result<&mut Self, QueryError>)
        requires
            old(self).wf(),
        ensures
            columns@.len() == 0 ==> (r matches Err(e) && e == QueryError::EmptyList),
            columns@.len() > 0 && (columns_rejected(columns@) || is_rejected(operand@)) ==> (r matches Err(e)
                && e == QueryError::Injection),
            r is Err ==> *final(self) == *old(self),
            columns@.len() > 0 && !columns_rejected(columns@) && !is_rejected(operand@) ==> (r matches Ok(b)
                && b.wf() && Self::appended(
                *old(self),
                *b,
                like_text(old(self).last_tag(), columns@, operand@),
                KeywordList::Like,
            ) && *final(self) == *final(b)),
    {
        if columns.len() == 0 {
            return Err(QueryError::EmptyList);
        }
        Self::sanitize_columns(&columns)?;
        Self::sanitize_str(operand)?;
        let mut items: Vec<String> = Vec::new();
        let mut i: usize = 0;
        while i < columns.len()
            invariant
                i <= columns@.len(),
                items@.len() == i,
                forall|k: int| 0 <= k < i ==> #[trigger] items@[k]@ == like_item(columns@[k]@, operand@),
            decreases columns@.len() - i,
        {
            let mut item = String::from_str(columns[i]);
            item.append(" LIKE '%");
            item.append(operand);
            item.append("%'");
            items.push(item);
            i = i + 1;
        }
        assert(items@.map_values(|x: String| x@) =~= like_items(columns@, operand@));
        let last = self.last();
        let text = match last {
            KeywordList::Where | KeywordList::WhereIn | KeywordList::WhereNotIn => {
                if columns.len() == 1 {
                    let mut t = String::from_str(" AND ");
                    t.append(items[0].as_str());
                    t
                } else {
                    let mut t = String::from_str(" AND (");
                    let body = join_strings(&items, " OR ");
                    t.append(body.as_str());
                    t.append(")");
                    t
                }
            },
            KeywordList::LeftBracketWhere | KeywordList::LeftBracketAnd | KeywordList::LeftBracketOr => {
                join_strings(&items, ", AND ")
            },
            _ => {
                let mut t = String::from_str(" WHERE ");
                let body = join_strings(&items, " OR ");
                t.append(body.as_str());
                t
            },
        };
        assert(text@ =~= like_text(last, columns@, operand@));
        self.push_text(text.as_str(), KeywordList::Like);
        Ok(self)
    }

    /// Orders by `column` in the given direction: a new ORDER BY clause, or
    /// one more key of the ordering appended last.
    pub fn order_by(&mut self, column: &str, ordering: &str) -> (r: Result<&mut Self, QueryError>)
        requires
            old(self).wf(),
        ensures
            is_rejected(column@) ==> (r matches Err(e) && e == QueryError::Injection),
            !is_rejected(column@) && ordering_word(ordering@) is None ==> (r matches Err(e) && e
                == QueryError::InvalidOrdering),
            r is Err ==> *final(self) == *old(self),
            !is_rejected(column@) && ordering_word(ordering@) is Some ==> (r matches Ok(b) && b.wf()
                && Self::appended(
                *old(self),
                *b,
                order_text(old(self).last_tag(), column@, ordering_word(ordering@).unwrap()),
                KeywordList::OrderBy,
            ) && *final(self) == *final(b)),
    {
        Self::sanitize_column(column)?;
        let word = if str_eq(ordering, "asc") || str_eq(ordering, "ASC") {
            "ASC"
        } else if str_eq(ordering, "desc") || str_eq(ordering, "DESC") {
            "DESC"
        } else {
            return Err(QueryError::InvalidOrdering);
        };
        let mut text = match self.last() {
            KeywordList::OrderBy | KeywordList::Field => String::from_str(", "),
            _ => String::from_str(" ORDER BY "),
        };
        text.append(column);
        text.append(" ");
        text.append(word);
        self.push_text(text.as_str(), KeywordList::OrderBy);
        Ok(self)
    }

    /// Orders at random; refused when the statement is already ordered.
    pub fn order_random(&mut self) -> (r: Result<&mut Self, QueryError>)
        ensures
            r is Err <==> contains(old(self).query@, "ORDER BY"@),
            r matches Err(e) ==> e == QueryError::DuplicateOrdering && *final(self) == *old(self),
            r matches Ok(b) ==> Self::appended(*old(self), *b, " ORDER BY RAND()"@, KeywordList::OrderBy)
                && *final(self) == *final(b),
    {
        if str_contains(self.query.as_str(), "ORDER BY") {
            return Err(QueryError::DuplicateOrdering);
        }
        self.push_text(" ORDER BY RAND()", KeywordList::OrderBy);
        Ok(self)
    }

    /// Orders by the position of `column`'s value in the given list, with
    /// `FIELD(column, 'a', 'b', ...)`: after an ORDER BY key, inside that
    /// clause; after another FIELD ordering, as one more key; elsewhere as a
    /// new ORDER BY clause.
    pub fn order_by_field(&mut self, column: &str, ordering: Vec<&str>) -> (r: Result<&mut Self, QueryError>)
        requires
            old(self).wf(),
        ensures
            ordering@.len() == 0 ==> (r matches Err(e) && e == QueryError::EmptyList),
            ordering@.len() > 0 && order_field_text(old(self).query@, old(self).last_tag(), field_text(column@, ordering@)) is None
                ==> (r matches Err(e) && e == QueryError::MissingFragment),
            r is Err ==> *final(self) == *old(self),
            ordering@.len() > 0 && order_field_text(old(self).query@, old(self).last_tag(), field_text(column@, ordering@)) is Some
                ==> (r matches Ok(b) && b.wf() && Self::rewritten(
                *old(self),
                *b,
                order_field_text(old(self).query@, old(self).last_tag(), field_text(column@, ordering@)).unwrap(),
                KeywordList::Field,
            ) && *final(self) == *final(b)),
    {
        if ordering.len() == 0 {
            return Err(QueryError::EmptyList);
        }
        let mut quoted: Vec<String> = Vec::new();
        let mut i: usize = 0;
        while i < ordering.len()
            invariant
                i <= ordering@.len(),
                quoted@.len() == i,
                forall|k: int| 0 <= k < i ==> #[trigger] quoted@[k]@ == "'"@ + ordering@[k]@ + "'"@,
            decreases ordering@.len() - i,
        {
            let mut item = String::from_str("'");
            item.append(ordering[i]);
            item.append("'");
            quoted.push(item);
            i = i + 1;
        }
        assert(quoted@.map_values(|x: String| x@) =~= ordering@.map_values(|o: &str| "'"@ + o@ + "'"@));
        let mut field = String::from_str("FIELD(");
        field.append(column);
        field.append(", ");
        let body = join_strings(&quoted, ", ");
        field.append(body.as_str());
        field.append(")");
        let last = self.last();
        let text = match last {
            KeywordList::OrderBy => {
                proof {
                    reveal_strlit(" ORDER BY ");
                }
                let pieces = split_exec(self.query.as_str(), " ORDER BY ");
                if pieces.len() < 2 {
                    return Err(QueryError::MissingFragment);
                }
                let mut t = String::from_str(pieces[0]);
                t.append(" ORDER BY ");
                t.append(pieces[1]);
                t.append(", ");
                t.append(field.as_str());
                t
            },
            KeywordList::Field => {
                let mut t = self.query.clone();
                t.append(", ");
                t.append(field.as_str());
                t
            },
            _ => {
                let mut t = self.query.clone();
                t.append(" ORDER BY ");
                t.append(field.as_str());
                t
            },
        };
        assert(text@ =~= order_field_text(self.query@, last, field_text(column@, ordering@)).unwrap());
        self.set_query(text, KeywordList::Field);
        Ok(self)
    }

    /// Adds ` GROUP BY column`.
    pub fn group_by(&mut self, column: &str) -> (r: &mut Self)
        ensures
            Self::appended(*old(self), *r, " GROUP BY "@ + column@, KeywordList::GroupBy),
            *final(self) == *final(r),
    {
        let mut text = String::from_str(" GROUP BY ");
        text.append(column);
        self.push_text(text.as_str(), KeywordList::GroupBy);
        self
    }

    fn join_on(&mut self, lead: &str, table: &str, left: &str, mark: &str, right: &str, tag: KeywordList)
        ensures
            Self::appended(*old(self), *final(self), lead@ + table@ + " ON "@ + left@ + " "@ + mark@ + " "@ + right@, tag),
    {
        let mut text = String::from_str(lead);
        text.append(table);
        text.append(" ON ");
        text.append(left);
        text.append(" ");
        text.append(mark);
        text.append(" ");
        text.append(right);
        self.push_text(text.as_str(), tag);
    }

    /// Adds ` INNER JOIN table ON left mark right`.
    pub fn inner_join(&mut self, table: &str, left: &str, mark: &str, right: &str) -> (r: &mut Self)
        ensures
            Self::appended(*old(self), *r, " INNER JOIN "@ + table@ + " ON "@ + left@ + " "@ + mark@ + " "@ + right@, KeywordList::InnerJoin),
            *final(self) == *final(r),
    {
        self.join_on(" INNER JOIN ", table, left, mark, right, KeywordList::InnerJoin);
        self
    }

    /// Adds ` LEFT JOIN table ON left mark right`.
    pub fn left_join(&mut self, table: &str, left: &str, mark: &str, right: &str) -> (r: &mut Self)
        ensures
            Self::appended(*old(self), *r, " LEFT JOIN "@ + table@ + " ON "@ + left@ + " "@ + mark@ + " "@ + right@, KeywordList::LeftJoin),
            *final(self) == *final(r),
    {
        self.join_on(" LEFT JOIN ", table, left, mark, right, KeywordList::LeftJoin);
        self
    }

    /// Adds ` RIGHT JOIN table ON left mark right`.
    pub fn right_join(&mut self, table: &str, left: &str, mark: &str, right: &str) -> (r: &mut Self)
        ensures
            Self::appended(*old(self), *r, " RIGHT JOIN "@ + table@ + " ON "@ + left@ + " "@ + mark@ + " "@ + right@, KeywordList::RightJoin),
            *final(self) == *final(r),
    {
        self.join_on(" RIGHT JOIN ", table, left, mark, right, KeywordList::RightJoin);
        self
    }

    /// Adds ` CROSS JOIN table`; recorded as a join tag.
    pub fn cross_join(&mut self, table: &str) -> (r: &mut Self)
        ensures
            Self::appended(*old(self), *r, " CROSS JOIN "@ + table@, KeywordList::RightJoin),
            *final(self) == *final(r),
    {
        let mut text = String::from_str(" CROSS JOIN ");
        text.append(table);
        self.push_text(text.as_str(), KeywordList::RightJoin);
        self
    }

    /// Adds ` NATURAL JOIN table`; recorded as a join tag.
    pub fn natural_join(&mut self, table: &str) -> (r: &mut Self)
        ensures
            Self::appended(*old(self), *r, " NATURAL JOIN "@ + table@, KeywordList::RightJoin),
            *final(self) == *final(r),
    {
        let mut text = String::from_str(" NATURAL JOIN ");
        text.append(table);
        self.push_text(text.as_str(), KeywordList::RightJoin);
        self
    }

    fn union_with(&mut self, others: Vec<QueryBuilder>, keyword: &str, tag: KeywordList)
        requires
            old(self).wf(),
        ensures
            final(self).wf(),
            Self::rewritten(*old(self), *final(self), union_text(old(self).query@, old(self).last_tag(), others@, keyword@), tag),
    {
        let last = self.last();
        let mut text = match last {
            KeywordList::Union | KeywordList::UnionAll => self.query.clone(),
            _ => {
                let mut t = String::from_str("(");
                t.append(self.query.as_str());
                t.append(")");
                t
            },
        };
        let ghost head = text@;
        let mut i: usize = 0;
        while i < others.len()
            invariant
                i <= others@.len(),
                text@ == head + union_tail(others@.take(i as int), keyword@),
            decreases others@.len() - i,
        {
            assert(others@.take(i + 1).drop_last() =~= others@.take(i as int));
            text.append(keyword);
            text.append("(");
            text.append(others[i].query.as_str());
            text.append(")");
            i = i + 1;
        }
        assert(others@.take(others@.len() as int) =~= others@);
        self.set_query(text, tag);
    }

    /// Combines the statement with others by UNION: ` UNION (other)` for each.
    pub fn union(&mut self, others: Vec<QueryBuilder>) -> (r: &mut Self)
        requires
            old(self).wf(),
        ensures
            r.wf(),
            Self::rewritten(*old(self), *r, union_text(old(self).query@, old(self).last_tag(), others@, " UNION "@), KeywordList::Union),
            *final(self) == *final(r),
    {
        self.union_with(others, " UNION ", KeywordList::Union);
        self
    }

    /// Combines the statement with others by UNION ALL.
    pub fn union_all(&mut self, others: Vec<QueryBuilder>) -> (r: &mut Self)
        requires
            old(self).wf(),
        ensures
            r.wf(),
            Self::rewritten(*old(self), *r, union_text(old(self).query@, old(self).last_tag(), others@, " UNION ALL "@), KeywordList::UnionAll),
            *final(self) == *final(r),
    {
        self.union_with(others, " UNION ALL ", KeywordList::UnionAll);
        self
    }

    /// Appends text written by the caller, after a space; records no tag.
    pub fn append_custom(&mut self, query: &str) -> (r: &mut Self)
        ensures
            r.query@ == old(self).query@ + " "@ + query@,
            r.list@ == old(self).list@,
            r.table@ == old(self).table@,
            r.qtype == old(self).qtype,
            r.depth == old(self).depth,
            *final(self) == *final(r),
    {
        self.query.append(" ");
        self.query.append(query);
        self
    }

    /// Records a tag without changing the text, so that the next operation
    /// splices as if that clause had been appended.
    pub fn append_keyword(&mut self, keyword: KeywordList) -> (r: &mut Self)
        ensures
            r.query@ == old(self).query@,
            r.list@ == old(self).list@.push(keyword),
            r.table@ == old(self).table@,
            r.qtype == old(self).qtype,
            r.depth == old(self).depth,
            *final(self) == *final(r),
    {
        self.list.push(keyword);
        self
    }

    /// The finished statement: the text followed by `;`.
    pub fn finish(&self) -> (r: String)
        ensures
            r@ == self.query@ + ";"@,
    {
        let mut r = self.query.clone();
        r.append(";");
        r
    }

    /// An independent copy of the composer.
    pub fn copy(&mut self) -> (r: QueryBuilder)
        ensures
            r.query@ == old(self).query@,
            r.table@ == old(self).table@,
            r.qtype == old(self).qtype,
            r.list@ == old(self).list@,
            r.depth == old(self).depth,
            *final(self) == *old(self),
    {
        let mut list: Vec<KeywordList> = Vec::new();
        let mut i: usize = 0;
        while i < self.list.len()
            invariant
                i <= self.list@.len(),
                list@ == self.list@.take(i as int),
            decreases self.list@.len() - i,
        {
            list.push(self.list[i]);
            assert(list@ =~= self.list@.take(i + 1));
            i = i + 1;
        }
        assert(list@ =~= self.list@);
        QueryBuilder {
            query: self.query.clone(),
            table: self.table.clone(),
            qtype: self.qtype,
            list,
            depth: self.depth,
        }
    }
}

} // verus!
