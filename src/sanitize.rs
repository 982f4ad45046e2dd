//! The denylist check applied to identifiers and literals.
use vstd::prelude::*;
use crate::text::{ascii_lower, ascii_lower_exec, chars_of, contains, contains_exec};
use crate::value::ValueType;

verus! {

/// Below this many characters a text that holds a `;` is taken for an
/// injection; longer free text may hold one.
pub const SHORT_TEXT: usize = 40;

/// The denylist, in lower case. The first entry, the bare semicolon, counts
/// only in short texts.
pub open spec fn patterns() -> Seq<Seq<char>> {
    seq![
        ";"@, "; drop"@, "admin' #"@, "admin'/*"@, "; union"@, "or 1 = 1"@, "or 1 = 1#"@,
        "or 1 = 1/*"@, "or true = true"@, "or false = false"@, "or '1' = '1'"@, "or '1' = '1'#"@,
        "or '1' = '1'/*"@, "; sleep("@, "--"@, "drop table"@, "drop schema"@, "select if"@,
        "union select"@, "union all"@, "exec"@, "master.."@, "masters.."@, "information_schema"@,
        "load_file"@, "alter user"@,
    ]
}

/// Entry `i` of the denylist matches the text `s`, compared case-insensitively.
pub open spec fn flags(s: Seq<char>, i: int) -> bool {
    if i == 0 {
        s.len() < SHORT_TEXT && contains(ascii_lower(s), patterns()[0])
    } else {
        contains(ascii_lower(s), patterns()[i])
    }
}

/// The sanitizer rejects `s`: it is not empty and some entry of the denylist
/// matches it.
pub open spec fn is_rejected(s: Seq<char>) -> bool {
    s.len() > 0 && exists|i: int| 0 <= i < patterns().len() && flags(s, i)
}

/// A string or datetime value whose text the sanitizer rejects.
pub open spec fn value_rejected(v: ValueType) -> bool {
    match v {
        ValueType::String(s) => is_rejected(s@),
        ValueType::Datetime(s) => is_rejected(s@),
        _ => false,
    }
}

/// The denylist as text.
pub fn load_hqs() -> (r: Vec<&'static str>)
    ensures
        r@.len() == patterns().len(),
        forall|i: int| 0 <= i < r@.len() ==> #[trigger] r@[i]@ == patterns()[i],
{
    let mut r: Vec<&'static str> = Vec::new();
    r.push(";");
    r.push("; drop");
    r.push("admin' #");
    r.push("admin'/*");
    r.push("; union");
    r.push("or 1 = 1");
    r.push("or 1 = 1#");
    r.push("or 1 = 1/*");
    r.push("or true = true");
    r.push("or false = false");
    r.push("or '1' = '1'");
    r.push("or '1' = '1'#");
    r.push("or '1' = '1'/*");
    r.push("; sleep(");
    r.push("--");
    r.push("drop table");
    r.push("drop schema");
    r.push("select if");
    r.push("union select");
    r.push("union all");
    r.push("exec");
    r.push("master..");
    r.push("masters..");
    r.push("information_schema");
    r.push("load_file");
    r.push("alter user");
    r
}

/// Whether the sanitizer rejects `candidate`.
pub fn is_injection(candidate: &str) -> (r: bool)
    ensures
        r == is_rejected(candidate@),
{
    let n = candidate.unicode_len();
    if n == 0 {
        return false;
    }
    let lower = ascii_lower_exec(candidate);
    let hqs = load_hqs();
    let mut i: usize = 0;
    while i < hqs.len()
        invariant
            n == candidate@.len(),
            n > 0,
            lower@ == ascii_lower(candidate@),
            hqs@.len() == patterns().len(),
            forall|k: int| 0 <= k < hqs@.len() ==> #[trigger] hqs@[k]@ == patterns()[k],
            i <= hqs@.len(),
            forall|k: int| 0 <= k < i ==> !flags(candidate@, k),
        decreases hqs@.len() - i,
    {
        let pattern = chars_of(hqs[i]);
        let hit = contains_exec(&lower, &pattern);
        if hit && (i > 0 || n < SHORT_TEXT) {
            assert(flags(candidate@, i as int));
            return true;
        }
        i = i + 1;
    }
    false
}

} // verus!
