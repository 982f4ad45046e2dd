//! Laws of the value encoder, the sanitizer and the composer that relate
//! several operations or hold of all inputs.
use vstd::prelude::*;
use crate::keyword::{BracketType, KeywordList, bracket_text};
use crate::number::{Decimal, decimal_text, int_text, is_digit, lemma_nat_text_digits, nat_text, padded_digits, trim_zeros, zeros};
use crate::query::{QueryBuilder, order_text, set_text};
use crate::sanitize::{SHORT_TEXT, flags, is_rejected, patterns};
use crate::text::{ascii_lower, contains, match_at};
use crate::value::{ValueType, double_quoted, integer_of, is_time_keyword, single_quoted, value_text};

verus! {

/// The characters that the text of a number may hold: digits, a leading
/// minus sign, a decimal point.
pub open spec fn numeric_char(c: char) -> bool {
    is_digit(c) || c == '-' || c == '.'
}

pub open spec fn all_numeric(s: Seq<char>) -> bool {
    forall|k: int| 0 <= k < s.len() ==> numeric_char(#[trigger] s[k])
}

proof fn lemma_int_text_numeric(i: int)
    ensures
        all_numeric(int_text(i)),
        int_text(i).len() >= 1,
{
    if i < 0 {
        lemma_nat_text_digits((-i) as nat);
        let t = int_text(i);
        assert forall|k: int| 0 <= k < t.len() implies numeric_char(#[trigger] t[k]) by {
            if k > 0 {
                assert(t[k] == nat_text((-i) as nat)[k - 1]);
            }
        }
    } else {
        lemma_nat_text_digits(i as nat);
    }
}

proof fn lemma_trim_zeros_keeps(s: Seq<char>)
    ensures
        trim_zeros(s).len() <= s.len(),
        forall|k: int| 0 <= k < trim_zeros(s).len() ==> #[trigger] trim_zeros(s)[k] == s[k],
    decreases s.len(),
{
    if s.len() > 0 && s.last() == '0' {
        lemma_trim_zeros_keeps(s.drop_last());
    }
}

proof fn lemma_decimal_text_numeric(d: Decimal)
    ensures
        all_numeric(decimal_text(d)),
{
    let magnitude: nat = if d.units < 0 { (-d.units) as nat } else { d.units as nat };
    lemma_nat_text_digits(magnitude);
    let digits = nat_text(magnitude);
    let padded = padded_digits(d);
    assert(padded == zeros(d.scale + 1 - digits.len()) + digits);
    assert forall|k: int| 0 <= k < padded.len() implies is_digit(#[trigger] padded[k]) by {
        let z = zeros(d.scale + 1 - digits.len());
        if k >= z.len() {
            assert(padded[k] == digits[k - z.len()]);
        }
    }
    let cut = padded.len() - d.scale;
    let tail = padded.subrange(cut, padded.len() as int);
    lemma_trim_zeros_keeps(tail);
    let t = decimal_text(d);
    assert forall|k: int| 0 <= k < t.len() implies numeric_char(#[trigger] t[k]) by {
        let sign = if d.units < 0 { seq!['-'] } else { Seq::<char>::empty() };
        let whole = padded.subrange(0, cut);
        let frac = trim_zeros(tail);
        if k < sign.len() {
        } else if k < sign.len() + whole.len() {
            assert(t[k] == whole[k - sign.len()]);
        } else if k == sign.len() + whole.len() {
        } else {
            assert(t[k] == frac[k - sign.len() - whole.len() - 1]);
            assert(frac[k - sign.len() - whole.len() - 1] == tail[k - sign.len() - whole.len() - 1]);
        }
    }
}

/// Each literal keeps its class: numbers are never quoted (only digits, a
/// sign and a point), a string is wrapped in single quotes and a JSON string
/// in double quotes, a recognised datetime keyword is written bare and any
/// other datetime quoted, an epoch time is always `FROM_UNIXTIME(n)`, NULL and
/// booleans are bare words.
pub proof fn lemma_literal_classes(v: ValueType)
    ensures
        integer_of(v) is Some ==> value_text(v) == int_text(integer_of(v).unwrap()) && all_numeric(
            value_text(v),
        ),
        match v {
            ValueType::Float32(d) => all_numeric(value_text(v)),
            ValueType::Float64(d) => all_numeric(value_text(v)),
            ValueType::String(s) => value_text(v) == single_quoted(s@) && value_text(v)[0] == '\''
                && value_text(v).last() == '\'',
            ValueType::JsonString(s) => value_text(v) == double_quoted(s@) && value_text(v)[0] == '"'
                && value_text(v).last() == '"',
            ValueType::Datetime(s) => if is_time_keyword(s@) {
                value_text(v) == s@
            } else {
                value_text(v) == single_quoted(s@)
            },
            ValueType::EpochTime(n) => value_text(v) == "FROM_UNIXTIME("@ + int_text(n as int) + ")"@,
            ValueType::Null => value_text(v) == "NULL"@,
            ValueType::Boolean(b) => value_text(v) == if b {
                "true"@
            } else {
                "false"@
            },
            _ => true,
        },
{
    match v {
        ValueType::Float32(d) => lemma_decimal_text_numeric(d),
        ValueType::Float64(d) => lemma_decimal_text_numeric(d),
        _ => {
            if integer_of(v) is Some {
                lemma_int_text_numeric(integer_of(v).unwrap());
            }
        },
    }
}

proof fn lemma_patterns_nonempty(i: int)
    requires
        0 <= i < patterns().len(),
    ensures
        patterns()[i].len() > 0,
{
    reveal_strlit(";");
    reveal_strlit("; drop");
    reveal_strlit("admin' #");
    reveal_strlit("admin'/*");
    reveal_strlit("; union");
    reveal_strlit("or 1 = 1");
    reveal_strlit("or 1 = 1#");
    reveal_strlit("or 1 = 1/*");
    reveal_strlit("or true = true");
    reveal_strlit("or false = false");
    reveal_strlit("or '1' = '1'");
    reveal_strlit("or '1' = '1'#");
    reveal_strlit("or '1' = '1'/*");
    reveal_strlit("; sleep(");
    reveal_strlit("--");
    reveal_strlit("drop table");
    reveal_strlit("drop schema");
    reveal_strlit("select if");
    reveal_strlit("union select");
    reveal_strlit("union all");
    reveal_strlit("exec");
    reveal_strlit("master..");
    reveal_strlit("masters..");
    reveal_strlit("information_schema");
    reveal_strlit("load_file");
    reveal_strlit("alter user");
}

/// A candidate that holds an entry of the denylist, in any letter case, is
/// rejected; the bare semicolon (entry 0) counts only in a text shorter than
/// the short-text limit.
pub proof fn lemma_denylist_rejects(s: Seq<char>, i: int)
    requires
        0 <= i < patterns().len(),
        contains(ascii_lower(s), patterns()[i]),
        i == 0 ==> s.len() < SHORT_TEXT,
    ensures
        is_rejected(s),
{
    lemma_patterns_nonempty(i);
    let k = choose|k: int| match_at(ascii_lower(s), patterns()[i], k);
    assert(ascii_lower(s).len() == s.len());
    assert(s.len() > 0);
    assert(flags(s, i));
}

/// The empty string is always accepted.
pub proof fn lemma_empty_accepted()
    ensures
        !is_rejected(Seq::<char>::empty()),
{
}

/// Two `set` calls in a row, the first one not following a SET clause,
/// write a single SET keyword and join the assignments with a comma.
pub proof fn lemma_set_accumulates(q0: QueryBuilder, q1: QueryBuilder, q2: QueryBuilder, a: Seq<char>, va: ValueType, b: Seq<char>, vb: ValueType)
    requires
        q0.list@.len() >= 1,
        q0.last_tag() != KeywordList::SetClause,
        QueryBuilder::appended(q0, q1, set_text(q0.last_tag(), a, va), KeywordList::SetClause),
        QueryBuilder::appended(q1, q2, set_text(q1.last_tag(), b, vb), KeywordList::SetClause),
    ensures
        q2.query@ == q0.query@ + " SET "@ + a + " = "@ + value_text(va) + ", "@ + b + " = "@
            + value_text(vb),
        q2.last_tag() == KeywordList::SetClause,
{
    assert(q1.last_tag() == KeywordList::SetClause);
    assert(q2.query@ =~= q0.query@ + " SET "@ + a + " = "@ + value_text(va) + ", "@ + b + " = "@
        + value_text(vb));
}

/// Two `order_by` calls in a row, the first one not following an ordering,
/// write a single ORDER BY keyword and join the keys with a comma.
pub proof fn lemma_order_by_accumulates(q0: QueryBuilder, q1: QueryBuilder, q2: QueryBuilder, c1: Seq<char>, w1: Seq<char>, c2: Seq<char>, w2: Seq<char>)
    requires
        q0.list@.len() >= 1,
        q0.last_tag() != KeywordList::OrderBy,
        q0.last_tag() != KeywordList::Field,
        QueryBuilder::appended(q0, q1, order_text(q0.last_tag(), c1, w1), KeywordList::OrderBy),
        QueryBuilder::appended(q1, q2, order_text(q1.last_tag(), c2, w2), KeywordList::OrderBy),
    ensures
        q2.query@ == q0.query@ + " ORDER BY "@ + c1 + " "@ + w1 + ", "@ + c2 + " "@ + w2,
{
    assert(q1.last_tag() == KeywordList::OrderBy);
    assert(q2.query@ =~= q0.query@ + " ORDER BY "@ + c1 + " "@ + w1 + ", "@ + c2 + " "@ + w2);
}

/// The number of times `c` occurs in `s`.
pub open spec fn char_count(s: Seq<char>, c: char) -> int
    decreases s.len(),
{
    if s.len() == 0 {
        0
    } else {
        char_count(s.drop_last(), c) + if s.last() == c {
            1int
        } else {
            0
        }
    }
}

proof fn lemma_char_count_concat(a: Seq<char>, b: Seq<char>, c: char)
    ensures
        char_count(a + b, c) == char_count(a, c) + char_count(b, c),
    decreases b.len(),
{
    if b.len() > 0 {
        lemma_char_count_concat(a, b.drop_last(), c);
        assert((a + b).drop_last() =~= a + b.drop_last());
    } else {
        assert(a + b =~= a);
    }
}

/// One step of a run of group operations: `Some(kind)` opened a group,
/// `None` closed one, as `open_parenthesis` and `close_parenthesis` state it.
pub open spec fn group_step(before: QueryBuilder, after: QueryBuilder, op: Option<BracketType>) -> bool {
    match op {
        Some(b) => after.query@ == before.query@ + " "@ + bracket_text(b) + " ("@ && after.depth
            == before.depth + 1,
        None => before.depth > 0 && after.query@ == before.query@ + ")"@ && after.depth
            == before.depth - 1,
    }
}

pub open spec fn opens(ops: Seq<Option<BracketType>>) -> int
    decreases ops.len(),
{
    if ops.len() == 0 {
        0
    } else {
        opens(ops.drop_last()) + if ops.last() is Some {
            1int
        } else {
            0
        }
    }
}

pub open spec fn closes(ops: Seq<Option<BracketType>>) -> int {
    ops.len() - opens(ops)
}

proof fn lemma_group_step_counts(before: QueryBuilder, after: QueryBuilder, op: Option<BracketType>)
    requires
        group_step(before, after, op),
    ensures
        char_count(after.query@, '(') == char_count(before.query@, '(') + if op is Some {
            1int
        } else {
            0
        },
        char_count(after.query@, ')') == char_count(before.query@, ')') + if op is Some {
            0int
        } else {
            1
        },
{
    reveal_strlit(" ");
    reveal_strlit(" (");
    reveal_strlit(")");
    reveal_strlit("WHERE");
    reveal_strlit("AND");
    reveal_strlit("OR");
    match op {
        Some(b) => {
            let t = " "@ + bracket_text(b) + " ("@;
            assert(after.query@ == before.query@ + t);
            lemma_char_count_concat(before.query@, t, '(');
            lemma_char_count_concat(before.query@, t, ')');
            assert(char_count(t, '(') == 1 && char_count(t, ')') == 0) by {
                match b {
                    BracketType::Where => {
                        assert(t =~= seq![' ', 'W', 'H', 'E', 'R', 'E', ' ', '(']);
                        reveal_with_fuel(char_count, 9);
                    },
                    BracketType::And => {
                        assert(t =~= seq![' ', 'A', 'N', 'D', ' ', '(']);
                        reveal_with_fuel(char_count, 7);
                    },
                    BracketType::Or => {
                        assert(t =~= seq![' ', 'O', 'R', ' ', '(']);
                        reveal_with_fuel(char_count, 6);
                    },
                }
            }
        },
        None => {
            lemma_char_count_concat(before.query@, ")"@, '(');
            lemma_char_count_concat(before.query@, ")"@, ')');
            assert(")"@ =~= seq![')']);
            reveal_with_fuel(char_count, 2);
        },
    }
}

/// Over any run of group operations in which every close finds an open
/// group, the text gains one `(` per open and one `)` per close, and the
/// depth moves by opens minus closes; so equal counts leave the groups
/// balanced and the depth where it was.
pub proof fn lemma_groups_balance(states: Seq<QueryBuilder>, ops: Seq<Option<BracketType>>)
    requires
        states.len() == ops.len() + 1,
        forall|i: int| 0 <= i < ops.len() ==> group_step(#[trigger] states[i], states[i + 1], ops[i]),
    ensures
        char_count(states.last().query@, '(') - char_count(states[0].query@, '(') == opens(ops),
        char_count(states.last().query@, ')') - char_count(states[0].query@, ')') == closes(ops),
        states.last().depth == states[0].depth + opens(ops) - closes(ops),
        opens(ops) == closes(ops) ==> char_count(states.last().query@, '(') - char_count(
            states[0].query@,
            '(',
        ) == char_count(states.last().query@, ')') - char_count(states[0].query@, ')')
            && states.last().depth == states[0].depth,
    decreases ops.len(),
{
    if ops.len() > 0 {
        let n = ops.len() - 1;
        lemma_groups_balance(states.drop_last(), ops.drop_last());
        assert(group_step(states[n], states[n + 1], ops[n]));
        lemma_group_step_counts(states[n], states[n + 1], ops[n]);
        assert(states.drop_last().last() == states[n]);
    }
}

} // verus!
