//! SQL statement validation: forbidden-keyword screening and statement-kind
//! classification, case-insensitive over ASCII.

use vstd::prelude::*;
use crate::errors::AppError;
use crate::text::{chars_vec, chars_to_string, contains_chars, contains_seq, starts_with_chars,
    starts_with_seq, to_upper, trim_chars, trimmed, upper_chars};

verus! {

/// The forbidden keywords, as they must not occur in the uppercased
/// statement.
pub open spec fn forbidden_keywords() -> Seq<Seq<char>> {
    seq!["DROP "@, "TRUNCATE "@, "DELETE FROM"@, "ALTER "@]
}

/// Whether the uppercased statement holds none of the forbidden keywords.
pub open spec fn sql_is_safe(sql: Seq<char>) -> bool {
    forall|k: int|
        0 <= k < forbidden_keywords().len() ==> !contains_seq(
            to_upper(sql),
            #[trigger] forbidden_keywords()[k],
        )
}

/// Validates SQL statements for security.
pub struct SqlValidator;

impl SqlValidator {
    /// Validates a SQL statement: `Ok` exactly when no forbidden keyword
    /// (`DROP `, `TRUNCATE `, `DELETE FROM`, `ALTER `) occurs in it,
    /// compared case-insensitively; else `UnsafeSql`.
    pub fn validate(sql: &str) -> (r: Result<(), AppError>)
        ensures
            r is Ok <==> sql_is_safe(sql@),
            r matches Err(e) ==> e is UnsafeSql,
    {
        let v = chars_vec(sql);
        let up = upper_chars(v.as_slice());
        let kw0 = chars_vec("DROP ");
        let kw1 = chars_vec("TRUNCATE ");
        let kw2 = chars_vec("DELETE FROM");
        let kw3 = chars_vec("ALTER ");
        if contains_chars(up.as_slice(), kw0.as_slice()) {
            return Err(Self::unsafe_sql(kw0.as_slice()));
        }
        if contains_chars(up.as_slice(), kw1.as_slice()) {
            return Err(Self::unsafe_sql(kw1.as_slice()));
        }
        if contains_chars(up.as_slice(), kw2.as_slice()) {
            return Err(Self::unsafe_sql(kw2.as_slice()));
        }
        if contains_chars(up.as_slice(), kw3.as_slice()) {
            return Err(Self::unsafe_sql(kw3.as_slice()));
        }
        proof {
            assert forall|k: int|
                0 <= k < forbidden_keywords().len() implies !contains_seq(
                to_upper(sql@),
                #[trigger] forbidden_keywords()[k],
            ) by {
                if k == 0 {
                    assert(forbidden_keywords()[0] == "DROP "@);
                } else if k == 1 {
                    assert(forbidden_keywords()[1] == "TRUNCATE "@);
                } else if k == 2 {
                    assert(forbidden_keywords()[2] == "DELETE FROM"@);
                } else {
                    assert(forbidden_keywords()[3] == "ALTER "@);
                }
            }
        }
        Ok(())
    }

    /// The error for one matched keyword, naming it without its padding
    /// whitespace.
    fn unsafe_sql(keyword: &[char]) -> (r: AppError)
        ensures
            r is UnsafeSql,
    {
        let t = trim_chars(keyword);
        let mut msg: String = "forbidden operation: ".to_owned();
        msg.append(chars_to_string(t.as_slice()).as_str());
        AppError::UnsafeSql(msg)
    }

    /// Whether the statement, trimmed, begins with `SELECT`,
    /// case-insensitively.
    pub fn is_select(sql: &str) -> (r: bool)
        ensures
            r == starts_with_seq(to_upper(trimmed(sql@)), "SELECT"@),
    {
        let v = chars_vec(sql);
        let t = trim_chars(v.as_slice());
        let up = upper_chars(t.as_slice());
        let p = chars_vec("SELECT");
        starts_with_chars(up.as_slice(), p.as_slice())
    }

    /// Whether the statement, trimmed, begins with `INSERT`, `UPDATE` or
    /// `DELETE`, case-insensitively.
    pub fn is_modification(sql: &str) -> (r: bool)
        ensures
            r == (starts_with_seq(to_upper(trimmed(sql@)), "INSERT"@) || starts_with_seq(
                to_upper(trimmed(sql@)),
                "UPDATE"@,
            ) || starts_with_seq(to_upper(trimmed(sql@)), "DELETE"@)),
    {
        let v = chars_vec(sql);
        let t = trim_chars(v.as_slice());
        let up = upper_chars(t.as_slice());
        let p0 = chars_vec("INSERT");
        let p1 = chars_vec("UPDATE");
        let p2 = chars_vec("DELETE");
        starts_with_chars(up.as_slice(), p0.as_slice()) || starts_with_chars(
            up.as_slice(),
            p1.as_slice(),
        ) || starts_with_chars(up.as_slice(), p2.as_slice())
    }
}

} // verus!
