//! Builders of schema and table definitions.
use vstd::prelude::*;
use crate::keyword::{ForeignKeyActions, KeywordList, action_text};
use crate::query::QueryError;
use crate::text::{contains, ends_with, join, replace, split, split_exec, starts_with, str_contains, str_ends_with, str_starts_with, replace_exec, lemma_split_scan_nonempty};
use crate::value::{ValueType, join_strings, value_text};

verus! {

/// A character that a schema name cannot hold.
pub open spec fn forbidden_in_name(c: char) -> bool {
    c == '!' || c == '-' || c == '=' || c == '+' || c == '%' || c == '$' || c == '&' || c == '#'
        || c == '[' || c == ']' || c == '{' || c == '}' || c == ':' || c == ';' || c == '\'' || c
        == '"' || c == ',' || c == '.'
}

pub open spec fn valid_name(s: Seq<char>) -> bool {
    forall|i: int| 0 <= i < s.len() ==> !forbidden_in_name(#[trigger] s[i])
}

fn check_name(name: &str) -> (r: Result<(), QueryError>)
    ensures
        r is Ok <==> valid_name(name@),
        r matches Err(e) ==> e == QueryError::InvalidName,
{
    let n = name.unicode_len();
    let mut i: usize = 0;
    while i < n
        invariant
            n == name@.len(),
            i <= n,
            forall|k: int| 0 <= k < i ==> !forbidden_in_name(#[trigger] name@[k]),
        decreases n - i,
    {
        let c = name.get_char(i);
        if c == '!' || c == '-' || c == '=' || c == '+' || c == '%' || c == '$' || c == '&' || c
            == '#' || c == '[' || c == ']' || c == '{' || c == '}' || c == ':' || c == ';' || c
            == '\'' || c == '"' || c == ',' || c == '.' {
            assert(forbidden_in_name(name@[i as int]));
            return Err(QueryError::InvalidName);
        }
        i = i + 1;
    }
    Ok(())
}

/// A `CREATE DATABASE` or `USE` statement.
#[derive(Clone, Debug)]
pub struct SchemaBuilder {
    pub query: String,
    pub schema: String,
    pub list: Vec<KeywordList>,
}

impl SchemaBuilder {
    /// `CREATE DATABASE name`; refused for a name with a forbidden character.
    pub fn create(name: &str) -> (r: Result<SchemaBuilder, QueryError>)
        ensures
            !valid_name(name@) ==> r == Err::<SchemaBuilder, QueryError>(QueryError::InvalidName),
            valid_name(name@) ==> (r matches Ok(s) && s.query@ == "CREATE DATABASE "@ + name@ && s.schema@
                == name@ && s.list@ == seq![KeywordList::Create]),
    {
        check_name(name)?;
        let mut query = String::from_str("CREATE DATABASE ");
        query.append(name);
        let mut list: Vec<KeywordList> = Vec::new();
        list.push(KeywordList::Create);
        Ok(SchemaBuilder { query, schema: String::from_str(name), list })
    }

    /// `USE name`; refused for a name with a forbidden character.
    pub fn use_another_schema(name: &str) -> (r: Result<SchemaBuilder, QueryError>)
        ensures
            !valid_name(name@) ==> r == Err::<SchemaBuilder, QueryError>(QueryError::InvalidName),
            valid_name(name@) ==> (r matches Ok(s) && s.query@ == "USE "@ + name@ && s.schema@ == name@
                && s.list@ == seq![KeywordList::Use, KeywordList::Create]),
    {
        check_name(name)?;
        let mut query = String::from_str("USE ");
        query.append(name);
        let mut list: Vec<KeywordList> = Vec::new();
        list.push(KeywordList::Use);
        list.push(KeywordList::Create);
        Ok(SchemaBuilder { query, schema: String::from_str(name), list })
    }

    /// Adds `IF NOT EXISTS` after `DATABASE`; only for a statement whose
    /// first tag is a creation.
    pub fn if_not_exists(&mut self) -> (r: Result<&mut Self, QueryError>)
        ensures
            old(self).list@.len() == 0 || !(old(self).list@[0] == KeywordList::Create
                || old(self).list@[0] == KeywordList::Table) ==> (r matches Err(e) && e
                == QueryError::Misplaced),
            old(self).list@.len() > 0 && (old(self).list@[0] == KeywordList::Create
                || old(self).list@[0] == KeywordList::Table) && split(old(self).query@, " DATABASE "@).len() < 2
                ==> (r matches Err(e) && e == QueryError::MissingFragment),
            r is Err ==> *final(self) == *old(self),
            old(self).list@.len() > 0 && (old(self).list@[0] == KeywordList::Create
                || old(self).list@[0] == KeywordList::Table) && split(old(self).query@, " DATABASE "@).len() >= 2
                ==> (r matches Ok(b) && b.query@ == split(old(self).query@, " DATABASE "@)[0]
                + " DATABASE IF NOT EXISTS "@ + split(old(self).query@, " DATABASE "@)[1] && b.list@
                == old(self).list@.insert(0, KeywordList::IfNotExist) && b.schema@ == old(
                self,
            ).schema@ && *final(self) == *final(b)),
    {
        if self.list.len() == 0 {
            return Err(QueryError::Misplaced);
        }
        match self.list[0] {
            KeywordList::Create | KeywordList::Table => {},
            _ => {
                return Err(QueryError::Misplaced);
            },
        }
        proof {
            reveal_strlit(" DATABASE ");
        }
        let pieces = split_exec(self.query.as_str(), " DATABASE ");
        if pieces.len() < 2 {
            return Err(QueryError::MissingFragment);
        }
        let mut t = String::from_str(pieces[0]);
        t.append(" DATABASE IF NOT EXISTS ");
        t.append(pieces[1]);
        self.query = t;
        self.list.insert(0, KeywordList::IfNotExist);
        Ok(self)
    }

    /// Makes the statement `USE name`, or `USE` of the builder's own schema.
    pub fn use_schema(&mut self, name: Option<&str>) -> (r: &mut Self)
        ensures
            r.query@ == "USE "@ + match name {
                Some(n) => n@,
                None => old(self).schema@,
            },
            r.schema@ == old(self).schema@,
            r.list@ == old(self).list@,
            *final(self) == *final(r),
    {
        let mut t = String::from_str("USE ");
        match name {
            Some(n) => t.append(n),
            None => t.append(self.schema.as_str()),
        }
        self.query = t;
        self
    }

    /// The finished statement: the text followed by `;`.
    pub fn finish(&self) -> (r: String)
        ensures
            r@ == self.query@ + ";"@,
    {
        let mut r = self.query.clone();
        r.append(";");
        r
    }
}

/// A `CREATE TABLE` statement under construction.
#[derive(Clone, Debug)]
pub struct TableBuilder {
    pub query: String,
    pub name: String,
    pub schema: String,
    pub all: Vec<String>,
}

/// One end of a foreign key.
#[derive(Clone, Debug)]
pub struct ForeignKeyItem {
    pub table: String,
    pub column: String,
}

/// A foreign key: the column of this table, the referenced table and
/// column, the actions, and an optional constraint name.
#[derive(Clone, Debug)]
pub struct ForeignKey {
    pub first: ForeignKeyItem,
    pub second: ForeignKeyItem,
    pub on_delete: Option<ForeignKeyActions>,
    pub on_update: Option<ForeignKeyActions>,
    pub constraint: Option<String>,
}

/// The column types whose default must be a number.
pub open spec fn numeric_column(t: Seq<char>) -> bool {
    contains(t, "INT"@) || contains(t, "TINYINT"@) || contains(t, "SMALLINT"@) || contains(
        t,
        "MEDIUMINT"@,
    ) || contains(t, "BIGINT"@) || contains(t, "BIT"@) || contains(t, "SERIAL"@)
}

pub open spec fn boolean_column(t: Seq<char>) -> bool {
    contains(t, "BOOL"@) || contains(t, "BOOLEAN"@)
}

pub open spec fn text_column(t: Seq<char>) -> bool {
    contains(t, "CHAR"@) || contains(t, "VARCHAR"@) || contains(t, "TEXT"@) || contains(
        t,
        "TINYTEXT"@,
    ) || contains(t, "MEDIUMTEXT"@) || contains(t, "LONGTEXT"@) || contains(t, "BINARY"@)
        || contains(t, "VARBINARY"@)
}

pub open spec fn time_column(t: Seq<char>) -> bool {
    contains(t, "DATETIME"@) || contains(t, "TIMESTAMP"@)
}

/// The values that a numeric column takes as default.
pub open spec fn is_numeric_default(v: ValueType) -> bool {
    match v {
        ValueType::Int8(_) | ValueType::Int16(_) | ValueType::Int32(_) | ValueType::Int64(_)
        | ValueType::Uint8(_) | ValueType::Uint16(_) | ValueType::Uint32(_) | ValueType::Uint64(_)
        | ValueType::Usize(_) | ValueType::Float32(_) | ValueType::Float64(_) => true,
        _ => false,
    }
}

/// The DEFAULT text for a column whose definition ends in `column`: one
/// ` DEFAULT` per type family that the definition names, each requiring a
/// value of that family (a number, a boolean, a string written quoted, a
/// datetime written as it is).
pub open spec fn default_text(column: Seq<char>, v: ValueType) -> Option<Seq<char>> {
    let numeric_ok = !numeric_column(column) || is_numeric_default(v);
    let boolean_ok = !boolean_column(column) || v is Boolean;
    let text_ok = !text_column(column) || v is String;
    let time_ok = !time_column(column) || v is Datetime;
    if numeric_ok && boolean_ok && text_ok && time_ok {
        Some((if numeric_column(column) {
            " DEFAULT "@ + value_text(v)
        } else {
            Seq::empty()
        }) + (if boolean_column(column) {
            " DEFAULT "@ + value_text(v)
        } else {
            Seq::empty()
        }) + (if text_column(column) {
            " DEFAULT "@ + value_text(v)
        } else {
            Seq::empty()
        }) + (if time_column(column) {
            " DEFAULT "@ + match v {
                ValueType::Datetime(s) => s@,
                _ => Seq::empty(),
            }
        } else {
            Seq::empty()
        }))
    } else {
        None
    }
}

/// The last column definition of the statement.
pub open spec fn last_definition(query: Seq<char>) -> Seq<char> {
    split(query, ", "@).last()
}

/// `FOREIGN KEY` text: `ADD` forms inside an `ALTER TABLE`, with the
/// constraint name when there is one, then the reference and the actions.
pub open spec fn foreign_key_text(query: Seq<char>, opts: ForeignKey) -> Seq<char> {
    let alter = starts_with(query, "ALTER TABLE"@);
    (match opts.constraint {
        Some(c) => (if alter {
            ", ADD CONSTRAINT "@
        } else {
            ", CONSTRAINT "@
        }) + c@ + " FOREIGN KEY ("@ + opts.first.column@ + ")"@,
        None => (if alter {
            ", ADD FOREIGN KEY ("@
        } else {
            ", FOREIGN KEY ("@
        }) + opts.first.column@ + ")"@,
    }) + " REFERENCES "@ + opts.second.table@ + "("@ + opts.second.column@ + ")"@ + (match opts.on_delete {
        Some(a) => " ON DELETE "@ + action_text(a),
        None => Seq::empty(),
    }) + (match opts.on_update {
        Some(a) => " ON UPDATE "@ + action_text(a),
        None => Seq::empty(),
    })
}

pub open spec fn quoted_items(items: Seq<&str>) -> Seq<Seq<char>> {
    items.map_values(|x: &str| "'"@ + x@ + "'"@)
}

/// The INDEX text: `, INDEX(a)` for one column; for several, `, INDEX (`
/// and the columns.
pub open spec fn index_text(indexes: Seq<&str>) -> Seq<char> {
    if indexes.len() == 1 {
        ", INDEX("@ + indexes[0]@ + ")"@
    } else {
        ", INDEX ("@ + join(indexes.map_values(|x: &str| x@), ", "@)
    }
}

impl TableBuilder {
    /// `CREATE TABLE name (`
    pub fn create(schema_name: &str, table_name: &str) -> (r: TableBuilder)
        ensures
            r.query@ == "CREATE TABLE "@ + table_name@ + " ("@,
            r.schema@ == schema_name@,
            r.name@ == table_name@,
            r.all@.len() == 0,
    {
        let mut query = String::from_str("CREATE TABLE ");
        query.append(table_name);
        query.append(" (");
        TableBuilder {
            query,
            schema: String::from_str(schema_name),
            name: String::from_str(table_name),
            all: Vec::new(),
        }
    }

    pub open spec fn extended(old: TableBuilder, new: TableBuilder, text: Seq<char>) -> bool {
        &&& new.query@ == old.query@ + text
        &&& new.name@ == old.name@
        &&& new.schema@ == old.schema@
        &&& new.all@ == old.all@
    }

    fn push_text(&mut self, text: &str)
        ensures
            Self::extended(*old(self), *final(self), text@),
    {
        self.query.append(text);
    }

    /// Moves the opening parenthesis behind `IF NOT EXISTS`.
    pub fn if_not_exists(&mut self) -> (r: &mut Self)
        ensures
            r.query@ == replace(old(self).query@, "("@, Seq::empty()) + "IF NOT EXISTS ("@,
            r.name@ == old(self).name@,
            r.schema@ == old(self).schema@,
            r.all@ == old(self).all@,
            *final(self) == *final(r),
    {
        proof {
            reveal_strlit("(");
            reveal_strlit("");
            assert(""@ =~= Seq::<char>::empty());
        }
        let mut t = replace_exec(self.query.as_str(), "(", "");
        t.append("IF NOT EXISTS (");
        self.query = t;
        self
    }

    /// Starts the next column definition.
    pub fn add_column(&mut self, column_name: &str) -> (r: &mut Self)
        ensures
            Self::extended(*old(self), *r, if ends_with(old(self).query@, "("@) {
                column_name@
            } else {
                ", "@ + column_name@
            }),
            *final(self) == *final(r),
    {
        if str_ends_with(self.query.as_str(), "(") {
            self.push_text(column_name);
        } else {
            let mut t = String::from_str(", ");
            t.append(column_name);
            self.push_text(t.as_str());
        }
        self
    }

    /// Gives the column its type; refused before any column.
    pub fn col_type(&mut self, column_type: &str) -> (r: Result<&mut Self, QueryError>)
        ensures
            r is Err <==> ends_with(old(self).query@, "("@),
            r matches Err(e) ==> e == QueryError::MissingColumn && *final(self) == *old(self),
            r matches Ok(b) ==> Self::extended(*old(self), *b, " "@ + column_type@) && *final(self) == *final(b),
    {
        if str_ends_with(self.query.as_str(), "(") {
            return Err(QueryError::MissingColumn);
        }
        let mut t = String::from_str(" ");
        t.append(column_type);
        self.push_text(t.as_str());
        Ok(self)
    }

    /// ` NULL`
    pub fn null(&mut self) -> (r: &mut Self)
        ensures
            Self::extended(*old(self), *r, " NULL"@),
            *final(self) == *final(r),
    {
        self.push_text(" NULL");
        self
    }

    /// ` NOT NULL`
    pub fn not_null(&mut self) -> (r: &mut Self)
        ensures
            Self::extended(*old(self), *r, " NOT NULL"@),
            *final(self) == *final(r),
    {
        self.push_text(" NOT NULL");
        self
    }

    /// ` AUTO_INCREMENT`
    pub fn auto_increment(&mut self) -> (r: &mut Self)
        ensures
            Self::extended(*old(self), *r, " AUTO_INCREMENT"@),
            *final(self) == *final(r),
    {
        self.push_text(" AUTO_INCREMENT");
        self
    }

    /// ` PRIMARY KEY`; refused when the table has one.
    pub fn primary_key(&mut self) -> (r: Result<&mut Self, QueryError>)
        ensures
            r is Err <==> contains(old(self).query@, "PRIMARY KEY"@),
            r matches Err(e) ==> e == QueryError::DuplicatePrimaryKey && *final(self) == *old(self),
            r matches Ok(b) ==> Self::extended(*old(self), *b, " PRIMARY KEY"@) && *final(self) == *final(b),
    {
        if str_contains(self.query.as_str(), "PRIMARY KEY") {
            return Err(QueryError::DuplicatePrimaryKey);
        }
        self.push_text(" PRIMARY KEY");
        Ok(self)
    }

    /// Gives the column a default value that suits its type (see
    /// `default_text`); refused for a value that does not.
    pub fn default(&mut self, value: ValueType) -> (r: Result<&mut Self, QueryError>)
        ensures
            default_text(last_definition(old(self).query@), value) is None ==> (r matches Err(e) && e
                == QueryError::TypeMismatch && *final(self) == *old(self)),
            default_text(last_definition(old(self).query@), value) is Some ==> (r matches Ok(b)
                && Self::extended(*old(self), *b, default_text(last_definition(old(self).query@), value).unwrap())
                && *final(self) == *final(b)),
    {
        proof {
            reveal_strlit(", ");
            lemma_split_scan_nonempty(self.query@, ", "@, 0, 0);
        }
        let pieces = split_exec(self.query.as_str(), ", ");
        let last = pieces[pieces.len() - 1];
        let numeric = str_contains(last, "INT") || str_contains(last, "TINYINT") || str_contains(last, "SMALLINT")
            || str_contains(last, "MEDIUMINT") || str_contains(last, "BIGINT") || str_contains(last, "BIT")
            || str_contains(last, "SERIAL");
        let boolean = str_contains(last, "BOOL") || str_contains(last, "BOOLEAN");
        let textual = str_contains(last, "CHAR") || str_contains(last, "VARCHAR") || str_contains(last, "TEXT")
            || str_contains(last, "TINYTEXT") || str_contains(last, "MEDIUMTEXT") || str_contains(last, "LONGTEXT")
            || str_contains(last, "BINARY") || str_contains(last, "VARBINARY");
        let timely = str_contains(last, "DATETIME") || str_contains(last, "TIMESTAMP");
        let numeric_value = match value {
            ValueType::Int8(_) | ValueType::Int16(_) | ValueType::Int32(_) | ValueType::Int64(_)
            | ValueType::Uint8(_) | ValueType::Uint16(_) | ValueType::Uint32(_) | ValueType::Uint64(_)
            | ValueType::Usize(_) | ValueType::Float32(_) | ValueType::Float64(_) => true,
            _ => false,
        };
        let boolean_value = match value {
            ValueType::Boolean(_) => true,
            _ => false,
        };
        let string_value = match value {
            ValueType::String(_) => true,
            _ => false,
        };
        if (numeric && !numeric_value) || (boolean && !boolean_value) || (textual && !string_value) {
            return Err(QueryError::TypeMismatch);
        }
        let raw_time: &str = match &value {
            ValueType::Datetime(s) => s.as_str(),
            _ => {
                if timely {
                    return Err(QueryError::TypeMismatch);
                }
                ""
            },
        };
        let literal = value.to_string();
        let mut t = String::new();
        if numeric {
            t.append(" DEFAULT ");
            t.append(literal.as_str());
        }
        if boolean {
            t.append(" DEFAULT ");
            t.append(literal.as_str());
        }
        if textual {
            t.append(" DEFAULT ");
            t.append(literal.as_str());
        }
        if timely {
            t.append(" DEFAULT ");
            t.append(raw_time);
        }
        assert(t@ =~= default_text(last_definition(self.query@), value).unwrap());
        self.push_text(t.as_str());
        Ok(self)
    }

    /// ` UNIQUE`
    pub fn unique(&mut self) -> (r: &mut Self)
        ensures
            Self::extended(*old(self), *r, " UNIQUE"@),
            *final(self) == *final(r),
    {
        self.push_text(" UNIQUE");
        self
    }

    /// ` CHECK(condition)`
    pub fn check(&mut self, condition: &str) -> (r: &mut Self)
        ensures
            Self::extended(*old(self), *r, " CHECK("@ + condition@ + ")"@),
            *final(self) == *final(r),
    {
        let mut t = String::from_str(" CHECK(");
        t.append(condition);
        t.append(")");
        self.push_text(t.as_str());
        self
    }

    /// ` CHARACTER SET name`
    pub fn character_set(&mut self, character_set: &str) -> (r: &mut Self)
        ensures
            Self::extended(*old(self), *r, " CHARACTER SET "@ + character_set@),
            *final(self) == *final(r),
    {
        let mut t = String::from_str(" CHARACTER SET ");
        t.append(character_set);
        self.push_text(t.as_str());
        self
    }

    /// Adds a foreign key (see `foreign_key_text`).
    pub fn foreign_key(&mut self, opts: ForeignKey) -> (r: &mut Self)
        ensures
            Self::extended(*old(self), *r, foreign_key_text(old(self).query@, opts)),
            *final(self) == *final(r),
    {
        let alter = str_starts_with(self.query.as_str(), "ALTER TABLE");
        let mut t = match &opts.constraint {
            Some(c) => {
                let mut t = if alter {
                    String::from_str(", ADD CONSTRAINT ")
                } else {
                    String::from_str(", CONSTRAINT ")
                };
                t.append(c.as_str());
                t.append(" FOREIGN KEY (");
                t
            },
            None => {
                if alter {
                    String::from_str(", ADD FOREIGN KEY (")
                } else {
                    String::from_str(", FOREIGN KEY (")
                }
            },
        };
        t.append(opts.first.column.as_str());
        t.append(")");
        t.append(" REFERENCES ");
        t.append(opts.second.table.as_str());
        t.append("(");
        t.append(opts.second.column.as_str());
        t.append(")");
        match opts.on_delete {
            Some(a) => {
                t.append(" ON DELETE ");
                let w = a.to_string();
                t.append(w.as_str());
            },
            None => {},
        }
        match opts.on_update {
            Some(a) => {
                t.append(" ON UPDATE ");
                let w = a.to_string();
                t.append(w.as_str());
            },
            None => {},
        }
        assert(t@ =~= foreign_key_text(self.query@, opts));
        self.push_text(t.as_str());
        self
    }

    /// ` UNSIGNED`
    pub fn unsigned(&mut self) -> (r: &mut Self)
        ensures
            Self::extended(*old(self), *r, " UNSIGNED"@),
            *final(self) == *final(r),
    {
        self.push_text(" UNSIGNED");
        self
    }

    /// ` ZEROFILL`
    pub fn zerofill(&mut self) -> (r: &mut Self)
        ensures
            Self::extended(*old(self), *r, " ZEROFILL"@),
            *final(self) == *final(r),
    {
        self.push_text(" ZEROFILL");
        self
    }

    /// ` ENUM('a', 'b'`; refused for an empty list.
    pub fn enum_sql(&mut self, enum_vec: Vec<&str>) -> (r: Result<&mut Self, QueryError>)
        ensures
            r is Err <==> enum_vec@.len() == 0,
            r matches Err(e) ==> e == QueryError::EmptyList && *final(self) == *old(self),
            r matches Ok(b) ==> Self::extended(*old(self), *b, " ENUM("@ + join(quoted_items(enum_vec@), ", "@))
                && *final(self) == *final(b),
    {
        if enum_vec.len() == 0 {
            return Err(QueryError::EmptyList);
        }
        let mut items: Vec<String> = Vec::new();
        let mut i: usize = 0;
        while i < enum_vec.len()
            invariant
                i <= enum_vec@.len(),
                items@.len() == i,
                forall|k: int| 0 <= k < i ==> #[trigger] items@[k]@ == "'"@ + enum_vec@[k]@ + "'"@,
            decreases enum_vec@.len() - i,
        {
            let mut item = String::from_str("'");
            item.append(enum_vec[i]);
            item.append("'");
            items.push(item);
            i = i + 1;
        }
        assert(items@.map_values(|x: String| x@) =~= quoted_items(enum_vec@));
        let mut t = String::from_str(" ENUM(");
        let body = join_strings(&items, ", ");
        t.append(body.as_str());
        self.push_text(t.as_str());
        Ok(self)
    }

    /// ` GENERATED ALWAYS AS condition`
    pub fn generated_always(&mut self, condition: &str) -> (r: &mut Self)
        ensures
            Self::extended(*old(self), *r, " GENERATED ALWAYS AS "@ + condition@),
            *final(self) == *final(r),
    {
        let mut t = String::from_str(" GENERATED ALWAYS AS ");
        t.append(condition);
        self.push_text(t.as_str());
        self
    }

    /// ` VIRTUAL`
    pub fn virtual_sql(&mut self) -> (r: &mut Self)
        ensures
            Self::extended(*old(self), *r, " VIRTUAL"@),
            *final(self) == *final(r),
    {
        self.push_text(" VIRTUAL");
        self
    }

    /// ` STORED`
    pub fn stored(&mut self) -> (r: &mut Self)
        ensures
            Self::extended(*old(self), *r, " STORED"@),
            *final(self) == *final(r),
    {
        self.push_text(" STORED");
        self
    }

    /// ` SPATIAL`
    pub fn spatial(&mut self) -> (r: &mut Self)
        ensures
            Self::extended(*old(self), *r, " SPATIAL"@),
            *final(self) == *final(r),
    {
        self.push_text(" SPATIAL");
        self
    }

    /// ` GENERATED`
    pub fn generated(&mut self) -> (r: &mut Self)
        ensures
            Self::extended(*old(self), *r, " GENERATED"@),
            *final(self) == *final(r),
    {
        self.push_text(" GENERATED");
        self
    }

    /// Adds an index over the given columns (see `index_text`); refused for
    /// an empty list.
    pub fn index(&mut self, indexes: Vec<&str>) -> (r: Result<&mut Self, QueryError>)
        ensures
            r is Err <==> indexes@.len() == 0,
            r matches Err(e) ==> e == QueryError::EmptyList && *final(self) == *old(self),
            r matches Ok(b) ==> Self::extended(*old(self), *b, index_text(indexes@)) && *final(self) == *final(b),
    {
        if indexes.len() == 0 {
            return Err(QueryError::EmptyList);
        }
        if indexes.len() == 1 {
            let mut t = String::from_str(", INDEX(");
            t.append(indexes[0]);
            t.append(")");
            self.push_text(t.as_str());
        } else {
            let mut t = String::from_str(", INDEX (");
            let body = crate::text::join_exec(&indexes, ", ");
            t.append(body.as_str());
            self.push_text(t.as_str());
        }
        Ok(self)
    }

    /// ` COMMENT 'comment'`
    pub fn comment(&mut self, comment: &str) -> (r: &mut Self)
        ensures
            Self::extended(*old(self), *r, " COMMENT '"@ + comment@ + "'"@),
            *final(self) == *final(r),
    {
        let mut t = String::from_str(" COMMENT '");
        t.append(comment);
        t.append("'");
        self.push_text(t.as_str());
        self
    }

    /// ` DEFAULT value ON NULL`, a string value written without quotes.
    pub fn default_on_null(&mut self, value: ValueType) -> (r: &mut Self)
        ensures
            Self::extended(*old(self), *r, " DEFAULT "@ + match value {
                ValueType::String(s) => s@,
                _ => value_text(value),
            } + " ON NULL"@),
            *final(self) == *final(r),
    {
        let mut t = String::from_str(" DEFAULT ");
        match &value {
            ValueType::String(s) => t.append(s.as_str()),
            _ => {
                let v = value.to_string();
                t.append(v.as_str());
            },
        }
        t.append(" ON NULL");
        self.push_text(t.as_str());
        self
    }

    /// ` INVISIBLE`
    pub fn invisible(&mut self) -> (r: &mut Self)
        ensures
            Self::extended(*old(self), *r, " INVISIBLE"@),
            *final(self) == *final(r),
    {
        self.push_text(" INVISIBLE");
        self
    }

    /// Appends text written by the caller, after a space.
    pub fn custom_query(&mut self, query: &str) -> (r: &mut Self)
        ensures
            Self::extended(*old(self), *r, " "@ + query@),
            *final(self) == *final(r),
    {
        let mut t = String::from_str(" ");
        t.append(query);
        self.push_text(t.as_str());
        self
    }

    /// The finished statement: the text followed by `);`.
    pub fn finish(&mut self) -> (r: String)
        ensures
            r@ == old(self).query@ + ");"@,
            *final(self) == *old(self),
    {
        let mut r = self.query.clone();
        r.append(");");
        r
    }
}

} // verus!
