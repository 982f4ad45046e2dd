//! The composer's JSON operations: assignments through JSON functions, and
//! JSON_EXTRACT / JSON_CONTAINS spliced into text already written.
use vstd::prelude::*;
use crate::keyword::KeywordList;
use crate::query::{QueryBuilder, QueryError};
use crate::text::{
    count_matches, ends_with, join, join_exec, lemma_split_scan_nonempty, replace, replace_exec,
    split, split_exec, starts_with, str_ends_with, str_eq, str_starts_with,
};
use crate::value::{JsonValue, join_strings, json_operand_text};

verus! {

pub open spec fn opt_view(o: Option<&str>) -> Option<Seq<char>> {
    match o {
        Some(s) => Some(s@),
        None => None,
    }
}

/// `'$path'`, or `'$'` without a path.
pub open spec fn path_arg(path: Option<Seq<char>>) -> Seq<char> {
    match path {
        Some(p) => "'$"@ + p + "'"@,
        None => "'$'"@,
    }
}

/// One more assignment after a SET clause, a new SET clause elsewhere.
pub open spec fn assign_lead(last: KeywordList) -> Seq<char> {
    if last == KeywordList::SetClause {
        ", "@
    } else {
        " SET "@
    }
}

/// `column = FUNC(column, '$path', value)` after the assignment lead.
pub open spec fn json_assign_text(last: KeywordList, func: Seq<char>, column: Seq<char>, path: Seq<char>, value: JsonValue) -> Seq<char> {
    assign_lead(last) + column + " = "@ + func + "("@ + column + ", "@ + path + ", "@
        + json_operand_text(value) + ")"@
}

/// A JSON path without the `$` that the call adds itself.
pub open spec fn strip_dollar(p: Seq<char>) -> Seq<char> {
    if starts_with(p, "$"@) {
        replace(p, "$"@, Seq::empty())
    } else {
        p
    }
}

pub open spec fn remove_item(p: &str) -> Seq<char> {
    ", '$"@ + strip_dollar(p@) + "'"@
}

/// `column = JSON_REMOVE(column, '$a', '$b')` after the assignment lead.
pub open spec fn json_remove_text(last: KeywordList, column: Seq<char>, paths: Seq<&str>) -> Seq<char> {
    assign_lead(last) + column + " = JSON_REMOVE("@ + column + join(
        paths.map_values(|p: &str| remove_item(p)),
        Seq::empty(),
    ) + ")"@
}

/// `FUNC(column, needle[, '$path'])`
pub open spec fn contains_call(func: Seq<char>, column: Seq<char>, needle: JsonValue, path: Option<Seq<char>>) -> Seq<char> {
    func + "("@ + column + ", "@ + json_operand_text(needle) + match path {
        Some(p) => ", '$"@ + p + "'"@,
        None => Seq::empty(),
    } + ")"@
}

/// The first piece, then each further piece but the last after `sep` and
/// followed by a space.
pub open spec fn middle(pieces: Seq<Seq<char>>, sep: Seq<char>, n: int) -> Seq<char>
    decreases n,
{
    if n <= 1 {
        pieces[0]
    } else {
        middle(pieces, sep, n - 1) + sep + pieces[n - 1] + " "@
    }
}

/// The text with its last `sep` fragment replaced by `lead` and `call`.
pub open spec fn keyed_splice(query: Seq<char>, sep: Seq<char>, lead: Seq<char>, call: Seq<char>) -> Result<Seq<char>, QueryError> {
    let pieces = split(query, sep);
    if pieces.len() < 2 {
        Err(QueryError::MissingFragment)
    } else if pieces.len() == 2 {
        Ok(pieces[0] + " "@ + lead + call)
    } else {
        Ok(middle(pieces, sep, pieces.len() - 1) + lead + call)
    }
}

/// Where a JSON_CONTAINS call goes, by the clause appended last: it
/// replaces the select list, the WHERE predicate, or the last AND / OR
/// predicate (opening a group after an opened one).
pub open spec fn contains_splice(query: Seq<char>, last: KeywordList, call: Seq<char>) -> Result<Seq<char>, QueryError> {
    match last {
        KeywordList::Select => Ok("SELECT "@ + call + " FROM"@),
        KeywordList::Where => Ok(split(query, " WHERE "@)[0] + " WHERE "@ + call),
        KeywordList::LeftBracketWhere => Ok(split(query, " WHERE "@)[0] + " WHERE ("@ + call),
        KeywordList::And => keyed_splice(query, " AND "@, "AND "@, call),
        KeywordList::LeftBracketAnd => keyed_splice(query, " AND "@, "AND ("@, call),
        KeywordList::Or => keyed_splice(query, " OR "@, "OR "@, call),
        KeywordList::LeftBracketOr => keyed_splice(query, " OR "@, "OR ("@, call),
        _ => Err(QueryError::Misplaced),
    }
}

/// `JSON_EXTRACT(haystack, '$needle')`
pub open spec fn extract_call(haystack: Seq<char>, needle: Seq<char>) -> Seq<char> {
    "JSON_EXTRACT("@ + haystack + ", '$"@ + needle + "')"@
}

pub open spec fn alias_suffix(alias: Option<Seq<char>>) -> Seq<char> {
    match alias {
        Some(a) => " AS "@ + a,
        None => Seq::empty(),
    }
}

/// ` ASC` or ` DESC` as the ordering text ends, else nothing.
pub open spec fn direction_suffix(s: Seq<char>) -> Seq<char> {
    if ends_with(s, "ASC"@) || ends_with(s, "asc"@) {
        " ASC"@
    } else if ends_with(s, "DESC"@) || ends_with(s, "desc"@) {
        " DESC"@
    } else {
        Seq::empty()
    }
}

/// The extraction after an AND or OR predicate (`kw` is `AND ` or `OR `):
/// the predicate on `haystack` is rewritten to test the extracted value.
pub open spec fn keyed_extract(query: Seq<char>, table: Seq<char>, haystack: Seq<char>, call: Seq<char>, kw: Seq<char>) -> Result<Seq<char>, QueryError> {
    let qc = kw + haystack;
    if table == haystack {
        let pieces = split(query, qc);
        if pieces.len() >= 2 {
            Ok(pieces[0] + kw + call + pieces[1])
        } else {
            Err(QueryError::MissingFragment)
        }
    } else if count_matches(query, qc) == 0 {
        Ok(query)
    } else if count_matches(query, qc) == 1 {
        Ok(replace(query, qc, kw + call))
    } else {
        let pieces = split(query, qc);
        Ok(join(pieces.drop_last(), qc) + " "@ + kw + call + " "@ + pieces.last())
    }
}

/// Where a JSON_EXTRACT call goes, by the clause appended last.
pub open spec fn extract_splice(query: Seq<char>, table: Seq<char>, last: KeywordList, haystack: Seq<char>, needle: Seq<char>, alias: Option<Seq<char>>) -> Result<Seq<char>, QueryError> {
    let call = extract_call(haystack, needle);
    match last {
        KeywordList::LeftBracketWhere | KeywordList::LeftBracketAnd | KeywordList::LeftBracketOr => Err(
            QueryError::Misplaced,
        ),
        KeywordList::Where => if haystack.len() == 0 {
            Err(QueryError::MissingFragment)
        } else if table == haystack {
            let pieces = split(query, haystack);
            if pieces.len() >= 3 {
                Ok("SELECT"@ + table + call + pieces[2])
            } else {
                Err(QueryError::MissingFragment)
            }
        } else {
            Ok(replace(query, haystack, call))
        },
        KeywordList::And => keyed_extract(query, table, haystack, call, "AND "@),
        KeywordList::Or => keyed_extract(query, table, haystack, call, "OR "@),
        KeywordList::Select => Ok("SELECT "@ + call + alias_suffix(alias) + " FROM"@),
        KeywordList::Table => Ok("SELECT "@ + call + alias_suffix(alias) + " FROM "@ + table),
        KeywordList::OrderBy => if count_matches(query, " ORDER BY "@) == 1 {
            let pieces = split(query, " ORDER BY "@);
            Ok(pieces[0] + " ORDER BY "@ + call + alias_suffix(alias) + direction_suffix(pieces[1]))
        } else {
            Ok(query)
        },
        KeywordList::Count => {
            let pieces = split(query, " COUNT"@);
            if pieces.len() >= 2 {
                Ok("SELECT "@ + call + alias_suffix(alias) + ", COUNT"@ + pieces[1])
            } else {
                Err(QueryError::MissingFragment)
            }
        },
        KeywordList::JsonExtract => match alias {
            Some(a) => Ok(split(query, " FROM"@)[0] + ", "@ + call + " AS "@ + a + " FROM"@),
            None => Err(QueryError::AmbiguousExtract),
        },
        _ => Ok(query),
    }
}

fn path_text(path: Option<&str>) -> (r: String)
    ensures
        r@ == path_arg(opt_view(path)),
{
    match path {
        Some(p) => {
            let mut r = String::from_str("'$");
            r.append(p);
            r.append("'");
            r
        },
        None => String::from_str("'$'"),
    }
}

fn keyed_splice_exec(query: &str, sep: &str, lead: &str, call: &str) -> (r: Result<String, QueryError>)
    requires
        sep@.len() > 0,
    ensures
        match keyed_splice(query@, sep@, lead@, call@) {
            Ok(t) => r matches Ok(s) && s@ == t,
            Err(e) => r == Err::<String, QueryError>(e),
        },
{
    let pieces = split_exec(query, sep);
    let ghost sp = split(query@, sep@);
    if pieces.len() < 2 {
        return Err(QueryError::MissingFragment);
    }
    if pieces.len() == 2 {
        let mut t = String::from_str(pieces[0]);
        t.append(" ");
        t.append(lead);
        t.append(call);
        return Ok(t);
    }
    let n = pieces.len() - 1;
    let mut t = String::from_str(pieces[0]);
    let mut i: usize = 1;
    while i < n
        invariant
            pieces@.len() == sp.len(),
            forall|k: int| 0 <= k < pieces@.len() ==> #[trigger] pieces@[k]@ == sp[k],
            n == pieces@.len() - 1,
            1 <= i <= n,
            t@ == middle(sp, sep@, i as int),
        decreases n - i,
    {
        t.append(sep);
        t.append(pieces[i]);
        t.append(" ");
        i = i + 1;
    }
    t.append(lead);
    t.append(call);
    Ok(t)
}

impl QueryBuilder {
    fn json_assign(&mut self, func: &str, column: &str, path: &str, value: &JsonValue, tag: KeywordList)
        requires
            old(self).wf(),
        ensures
            final(self).wf(),
            Self::appended(*old(self), *final(self), json_assign_text(old(self).last_tag(), func@, column@, path@, *value), tag),
    {
        let mut text = match self.last() {
            KeywordList::SetClause => String::from_str(", "),
            _ => String::from_str(" SET "),
        };
        text.append(column);
        text.append(" = ");
        text.append(func);
        text.append("(");
        text.append(column);
        text.append(", ");
        text.append(path);
        text.append(", ");
        let operand = value.operand();
        text.append(operand.as_str());
        text.append(")");
        self.push_text(text.as_str(), tag);
    }

    /// Appends `object` to the JSON array at `path` in `column`, as an
    /// assignment of the SET clause.
    pub fn json_array_append(&mut self, column: &str, path: Option<&str>, object: JsonValue) -> (r: &mut Self)
        requires
            old(self).wf(),
        ensures
            r.wf(),
            Self::appended(*old(self), *r, json_assign_text(old(self).last_tag(), "JSON_ARRAY_APPEND"@, column@, path_arg(opt_view(path)), object), KeywordList::JsonArrayAppend),
            *final(self) == *final(r),
    {
        let p = path_text(path);
        self.json_assign("JSON_ARRAY_APPEND", column, p.as_str(), &object, KeywordList::JsonArrayAppend);
        self
    }

    /// Sets the value at `path` in `column`'s JSON, as an assignment of the
    /// SET clause.
    pub fn json_set(&mut self, column: &str, path: &str, value: JsonValue) -> (r: &mut Self)
        requires
            old(self).wf(),
        ensures
            r.wf(),
            Self::appended(*old(self), *r, json_assign_text(old(self).last_tag(), "JSON_SET"@, column@, path_arg(Some(path@)), value), KeywordList::JsonSet),
            *final(self) == *final(r),
    {
        let p = path_text(Some(path));
        self.json_assign("JSON_SET", column, p.as_str(), &value, KeywordList::JsonSet);
        self
    }

    /// Replaces the value at `path` in `column`'s JSON; recorded like
    /// `json_set`.
    pub fn json_replace(&mut self, column: &str, path: &str, value: JsonValue) -> (r: &mut Self)
        requires
            old(self).wf(),
        ensures
            r.wf(),
            Self::appended(*old(self), *r, json_assign_text(old(self).last_tag(), "JSON_REPLACE"@, column@, path_arg(Some(path@)), value), KeywordList::JsonSet),
            *final(self) == *final(r),
    {
        let p = path_text(Some(path));
        self.json_assign("JSON_REPLACE", column, p.as_str(), &value, KeywordList::JsonSet);
        self
    }

    /// Removes the values at the given paths from `column`'s JSON, as an
    /// assignment of the SET clause. A leading `$` of a path is dropped.
    pub fn json_remove(&mut self, column: &str, paths: Vec<&str>) -> (r: Result<&mut Self, QueryError>)
        requires
            old(self).wf(),
        ensures
            r is Err <==> exists|i: int| 0 <= i < paths@.len() && #[trigger] paths@[i]@.len() == 0,
            r matches Err(e) ==> e == QueryError::InvalidPath && *final(self) == *old(self),
            r matches Ok(b) ==> b.wf() && Self::appended(*old(self), *b, json_remove_text(old(self).last_tag(), column@, paths@), KeywordList::JsonRemove)
                && *final(self) == *final(b),
    {
        let mut items: Vec<String> = Vec::new();
        let mut i: usize = 0;
        proof {
            reveal_strlit("$");
            reveal_strlit("");
        }
        while i < paths.len()
            invariant
                i <= paths@.len(),
                items@.len() == i,
                "$"@.len() == 1,
                forall|k: int| 0 <= k < i ==> paths@[k]@.len() != 0,
                forall|k: int| 0 <= k < i ==> #[trigger] items@[k]@ == remove_item(paths@[k]),
            decreases paths@.len() - i,
        {
            let p = paths[i];
            proof {
                reveal_strlit("$");
                reveal_strlit("");
            }
            assert(""@ =~= Seq::<char>::empty());
            if str_eq(p, "") {
                assert(paths@[i as int]@.len() == 0);
                return Err(QueryError::InvalidPath);
            }
            assert(p@.len() != 0) by {
                if p@.len() == 0 {
                    assert(p@ =~= ""@);
                }
            }
            let mut item = String::from_str(", '$");
            if str_starts_with(p, "$") {
                let stripped = replace_exec(p, "$", "");
                item.append(stripped.as_str());
            } else {
                item.append(p);
            }
            item.append("'");
            assert(item@ =~= remove_item(p));
            items.push(item);
            i = i + 1;
        }
        let body = join_strings(&items, "");
        proof {
            reveal_strlit("");
            assert(""@ =~= Seq::<char>::empty());
        }
        assert(items@.map_values(|x: String| x@) =~= paths@.map_values(|p: &str| remove_item(p)));
        let last = self.last();
        let mut text = match last {
            KeywordList::SetClause => String::from_str(", "),
            _ => String::from_str(" SET "),
        };
        text.append(column);
        text.append(" = JSON_REMOVE(");
        text.append(column);
        text.append(body.as_str());
        text.append(")");
        assert(text@ =~= json_remove_text(last, column@, paths@));
        self.push_text(text.as_str(), KeywordList::JsonRemove);
        Ok(self)
    }

    fn splice_contains(&mut self, func: &str, column: &str, needle: &JsonValue, path: Option<&str>, tag: KeywordList) -> (r: Result<(), QueryError>)
        requires
            old(self).wf(),
        ensures
            match contains_splice(old(self).query@, old(self).last_tag(), contains_call(func@, column@, *needle, opt_view(path))) {
                Ok(t) => r is Ok && final(self).wf() && Self::rewritten(*old(self), *final(self), t, tag),
                Err(e) => r == Err::<(), QueryError>(e) && *final(self) == *old(self),
            },
    {
        let mut call = String::from_str(func);
        call.append("(");
        call.append(column);
        call.append(", ");
        let operand = needle.operand();
        call.append(operand.as_str());
        match path {
            Some(p) => {
                call.append(", '$");
                call.append(p);
                call.append("'");
            },
            None => {},
        }
        call.append(")");
        assert(call@ =~= contains_call(func@, column@, *needle, opt_view(path)));
        proof {
            reveal_strlit(" WHERE ");
            reveal_strlit(" AND ");
            reveal_strlit(" OR ");
            lemma_split_scan_nonempty(self.query@, " WHERE "@, 0, 0);
        }
        let text = match self.last() {
            KeywordList::Select => {
                let mut t = String::from_str("SELECT ");
                t.append(call.as_str());
                t.append(" FROM");
                t
            },
            KeywordList::Where => {
                let pieces = split_exec(self.query.as_str(), " WHERE ");
                let mut t = String::from_str(pieces[0]);
                t.append(" WHERE ");
                t.append(call.as_str());
                t
            },
            KeywordList::LeftBracketWhere => {
                let pieces = split_exec(self.query.as_str(), " WHERE ");
                let mut t = String::from_str(pieces[0]);
                t.append(" WHERE (");
                t.append(call.as_str());
                t
            },
            KeywordList::And => keyed_splice_exec(self.query.as_str(), " AND ", "AND ", call.as_str())?,
            KeywordList::LeftBracketAnd => keyed_splice_exec(self.query.as_str(), " AND ", "AND (", call.as_str())?,
            KeywordList::Or => keyed_splice_exec(self.query.as_str(), " OR ", "OR ", call.as_str())?,
            KeywordList::LeftBracketOr => keyed_splice_exec(self.query.as_str(), " OR ", "OR (", call.as_str())?,
            _ => {
                return Err(QueryError::Misplaced);
            },
        };
        self.set_query(text, tag);
        Ok(())
    }

    /// Tests `column` with `JSON_CONTAINS(column, needle[, '$path'])`, put in
    /// place of the select list or of the predicate appended last (see
    /// `contains_splice`).
    pub fn json_contains(&mut self, column: &str, needle: JsonValue, path: Option<&str>) -> (r: Result<&mut Self, QueryError>)
        requires
            old(self).wf(),
        ensures
            match contains_splice(old(self).query@, old(self).last_tag(), contains_call("JSON_CONTAINS"@, column@, needle, opt_view(path))) {
                Ok(t) => r matches Ok(b) && b.wf() && Self::rewritten(*old(self), *b, t, KeywordList::JsonContains) && *final(self) == *final(b),
                Err(e) => r matches Err(x) && x == e && *final(self) == *old(self),
            },
    {
        self.splice_contains("JSON_CONTAINS", column, &needle, path, KeywordList::JsonContains)?;
        Ok(self)
    }

    /// As `json_contains`, with `NOT JSON_CONTAINS(...)`.
    pub fn not_json_contains(&mut self, column: &str, needle: JsonValue, path: Option<&str>) -> (r: Result<&mut Self, QueryError>)
        requires
            old(self).wf(),
        ensures
            match contains_splice(old(self).query@, old(self).last_tag(), contains_call("NOT JSON_CONTAINS"@, column@, needle, opt_view(path))) {
                Ok(t) => r matches Ok(b) && b.wf() && Self::rewritten(*old(self), *b, t, KeywordList::NotJsonContains) && *final(self) == *final(b),
                Err(e) => r matches Err(x) && x == e && *final(self) == *old(self),
            },
    {
        self.splice_contains("NOT JSON_CONTAINS", column, &needle, path, KeywordList::NotJsonContains)?;
        Ok(self)
    }
}


fn keyed_extract_exec(query: &str, table: &str, haystack: &str, call: &str, kw: &str) -> (r: Result<String, QueryError>)
    requires
        kw@.len() > 0,
    ensures
        match keyed_extract(query@, table@, haystack@, call@, kw@) {
            Ok(t) => r matches Ok(s) && s@ == t,
            Err(e) => r == Err::<String, QueryError>(e),
        },
{
    let mut qc = String::from_str(kw);
    qc.append(haystack);
    let pieces = split_exec(query, qc.as_str());
    let ghost sp = split(query@, qc@);
    proof {
        lemma_split_scan_nonempty(query@, qc@, 0, 0);
    }
    if str_eq(table, haystack) {
        if pieces.len() < 2 {
            return Err(QueryError::MissingFragment);
        }
        let mut t = String::from_str(pieces[0]);
        t.append(kw);
        t.append(call);
        t.append(pieces[1]);
        return Ok(t);
    }
    let count = pieces.len() - 1;
    if count == 0 {
        return Ok(String::from_str(query));
    }
    if count == 1 {
        let mut to = String::from_str(kw);
        to.append(call);
        return Ok(replace_exec(query, qc.as_str(), to.as_str()));
    }
    let mut head: Vec<&str> = Vec::new();
    let mut i: usize = 0;
    while i < count
        invariant
            count == pieces@.len() - 1,
            pieces@.len() == sp.len(),
            forall|k: int| 0 <= k < pieces@.len() ==> #[trigger] pieces@[k]@ == sp[k],
            i <= count,
            head@.len() == i,
            forall|k: int| 0 <= k < i ==> #[trigger] head@[k]@ == sp[k],
        decreases count - i,
    {
        head.push(pieces[i]);
        i = i + 1;
    }
    assert(head@.map_values(|x: &str| x@) =~= sp.drop_last());
    let mut t = join_exec(&head, qc.as_str());
    t.append(" ");
    t.append(kw);
    t.append(call);
    t.append(" ");
    t.append(pieces[count]);
    Ok(t)
}

impl QueryBuilder {
    /// Extracts `needle` from the JSON in `haystack` with
    /// `JSON_EXTRACT(haystack, '$needle')`: in the select list (named by the
    /// alias, which a second extraction in the list needs), or in place of
    /// the column in the predicate or ordering appended last (see
    /// `extract_splice`).
    pub fn json_extract(&mut self, haystack: &str, needle: &str, _as: Option<&str>) -> (r: Result<&mut Self, QueryError>)
        requires
            old(self).wf(),
        ensures
            match extract_splice(old(self).query@, old(self).table@, old(self).last_tag(), haystack@, needle@, opt_view(_as)) {
                Ok(t) => r matches Ok(b) && b.wf() && Self::rewritten(*old(self), *b, t, KeywordList::JsonExtract) && *final(self) == *final(b),
                Err(e) => r matches Err(x) && x == e && *final(self) == *old(self),
            },
    {
        let mut call = String::from_str("JSON_EXTRACT(");
        call.append(haystack);
        call.append(", '$");
        call.append(needle);
        call.append("')");
        let mut alias = String::new();
        match _as {
            Some(a) => {
                alias.append(" AS ");
                alias.append(a);
            },
            None => {},
        }
        assert(alias@ =~= alias_suffix(opt_view(_as)));
        proof {
            reveal_strlit(" ORDER BY ");
            reveal_strlit(" COUNT");
            reveal_strlit(" FROM");
            reveal_strlit("AND ");
            reveal_strlit("OR ");
            lemma_split_scan_nonempty(self.query@, " FROM"@, 0, 0);
        }
        let text = match self.last() {
            KeywordList::LeftBracketWhere | KeywordList::LeftBracketAnd | KeywordList::LeftBracketOr => {
                return Err(QueryError::Misplaced);
            },
            KeywordList::Where => {
                if haystack.unicode_len() == 0 {
                    return Err(QueryError::MissingFragment);
                }
                if str_eq(self.table.as_str(), haystack) {
                    let pieces = split_exec(self.query.as_str(), haystack);
                    if pieces.len() < 3 {
                        return Err(QueryError::MissingFragment);
                    }
                    let mut t = String::from_str("SELECT");
                    t.append(self.table.as_str());
                    t.append(call.as_str());
                    t.append(pieces[2]);
                    t
                } else {
                    replace_exec(self.query.as_str(), haystack, call.as_str())
                }
            },
            KeywordList::And => keyed_extract_exec(self.query.as_str(), self.table.as_str(), haystack, call.as_str(), "AND ")?,
            KeywordList::Or => keyed_extract_exec(self.query.as_str(), self.table.as_str(), haystack, call.as_str(), "OR ")?,
            KeywordList::Select => {
                let mut t = String::from_str("SELECT ");
                t.append(call.as_str());
                t.append(alias.as_str());
                t.append(" FROM");
                t
            },
            KeywordList::Table => {
                let mut t = String::from_str("SELECT ");
                t.append(call.as_str());
                t.append(alias.as_str());
                t.append(" FROM ");
                t.append(self.table.as_str());
                t
            },
            KeywordList::OrderBy => {
                let pieces = split_exec(self.query.as_str(), " ORDER BY ");
                if pieces.len() == 2 {
                    let mut t = String::from_str(pieces[0]);
                    t.append(" ORDER BY ");
                    t.append(call.as_str());
                    t.append(alias.as_str());
                    let tail = pieces[1];
                    if str_ends_with(tail, "ASC") || str_ends_with(tail, "asc") {
                        t.append(" ASC");
                    } else if str_ends_with(tail, "DESC") || str_ends_with(tail, "desc") {
                        t.append(" DESC");
                    }
                    t
                } else {
                    self.query.clone()
                }
            },
            KeywordList::Count => {
                let pieces = split_exec(self.query.as_str(), " COUNT");
                if pieces.len() < 2 {
                    return Err(QueryError::MissingFragment);
                }
                let mut t = String::from_str("SELECT ");
                t.append(call.as_str());
                t.append(alias.as_str());
                t.append(", COUNT");
                t.append(pieces[1]);
                t
            },
            KeywordList::JsonExtract => {
                match _as {
                    Some(a) => {
                        let pieces = split_exec(self.query.as_str(), " FROM");
                        let mut t = String::from_str(pieces[0]);
                        t.append(", ");
                        t.append(call.as_str());
                        t.append(" AS ");
                        t.append(a);
                        t.append(" FROM");
                        t
                    },
                    None => {
                        return Err(QueryError::AmbiguousExtract);
                    },
                }
            },
            _ => self.query.clone(),
        };
        assert(text@ =~= extract_splice(self.query@, self.table@, self.last_tag(), haystack@, needle@, opt_view(_as)).unwrap());
        self.set_query(text, KeywordList::JsonExtract);
        Ok(self)
    }
}

} // verus!
