//! Parsing of the completion service's free-text reply into a structured
//! translation: the SQL text, an optional explanation and the optional
//! confidence text.

use vstd::prelude::*;
use crate::text::{
    chars_of, find, find_from, find_from_exec, lemma_find_from_later, lemma_found_in_bounds,
    occurs_at, trim, trimmed_slice,
};

verus! {

broadcast use vstd::string::group_string_axioms;

/// The SQL used when a reply carries no `SQL:` marker: a small sample of the
/// known table.
pub open spec fn fallback_sql() -> Seq<char> {
    "SELECT * FROM cars LIMIT 10;"@
}

pub open spec fn sql_marker() -> Seq<char> {
    "SQL:"@
}

pub open spec fn explanation_marker() -> Seq<char> {
    "EXPLANATION:"@
}

pub open spec fn confidence_marker() -> Seq<char> {
    "CONFIDENCE:"@
}

/// What follows the first `marker` in `s`, cut at the first `stop` after it
/// (or at the end of `s`), trimmed; `None` when `marker` does not occur.
pub open spec fn field_after(s: Seq<char>, marker: Seq<char>, stop: Seq<char>) -> Option<Seq<char>> {
    match find(s, marker) {
        Some(i) => {
            let start = i + marker.len();
            match find_from(s, stop, start) {
                Some(j) => Some(trim(s.subrange(start, j))),
                None => Some(trim(s.subrange(start, s.len() as int))),
            }
        },
        None => None,
    }
}

/// The SQL text of a reply: the `SQL:` field, or the fallback query.
pub open spec fn reply_sql(s: Seq<char>) -> Seq<char> {
    match field_after(s, sql_marker(), explanation_marker()) {
        Some(t) => t,
        None => fallback_sql(),
    }
}

/// The explanation of a reply: the `EXPLANATION:` field, if any.
pub open spec fn reply_explanation(s: Seq<char>) -> Option<Seq<char>> {
    field_after(s, explanation_marker(), confidence_marker())
}

/// The confidence text of a reply: all that follows the first
/// `CONFIDENCE:`, trimmed.
pub open spec fn reply_confidence(s: Seq<char>) -> Option<Seq<char>> {
    match find(s, confidence_marker()) {
        Some(i) => Some(trim(s.subrange(i + confidence_marker().len(), s.len() as int))),
        None => None,
    }
}

/// A reply of the completion service, split into its fields. The confidence
/// is kept as the text that followed its marker; reading it as a number is
/// left to the caller, which drops it when it is not one.
pub struct QueryResult {
    pub sql_query: String,
    pub explanation: Option<String>,
    pub confidence_text: Option<String>,
}

pub open spec fn opt_view(o: Option<String>) -> Option<Seq<char>> {
    match o {
        Some(s) => Some(s@),
        None => None,
    }
}

impl QueryResult {
    /// The fields of this result, as character sequences.
    pub open spec fn fields(&self) -> (Seq<char>, Option<Seq<char>>, Option<Seq<char>>) {
        (self.sql_query@, opt_view(self.explanation), opt_view(self.confidence_text))
    }
}

/// The field after `marker`, up to `stop` or the end, trimmed.
fn extract_field(src: &str, s: &Vec<char>, marker: &Vec<char>, stop: Option<&Vec<char>>) -> (r: Option<String>)
    requires
        s@ == src@,
    ensures
        match find(s@, marker@) {
            Some(i) => {
                let start = i + marker@.len();
                let end = match stop {
                    Some(p) => match find_from(s@, p@, start) {
                        Some(j) => j,
                        None => s@.len() as int,
                    },
                    None => s@.len() as int,
                };
                r is Some && r->0@ == trim(s@.subrange(start, end))
            },
            None => r is None,
        },
{
    match find_from_exec(s, marker, 0) {
        None => None,
        Some(i) => {
            proof {
                lemma_found_in_bounds(s@, marker@, 0);
                assert(occurs_at(s@, marker@, i as int));
                assert(i + marker@.len() <= s@.len());
                assert(s@.len() == s.len() && marker@.len() == marker.len());
            }
            let start = i + marker.len();
            let end = match stop {
                Some(p) => match find_from_exec(s, p, start) {
                    Some(j) => {
                        proof {
                            lemma_found_in_bounds(s@, p@, start as int);
                        }
                        j
                    },
                    None => s.len(),
                },
                None => s.len(),
            };
            Some(trimmed_slice(src, s, start, end))
        },
    }
}

/// When a reply's first `SQL:`, first `EXPLANATION:` and first `CONFIDENCE:`
/// come in this order without overlapping, the SQL is exactly the trimmed
/// text between the first two markers, the explanation the trimmed text
/// between the last two, and the confidence text all that follows the third,
/// trimmed.
pub proof fn lemma_ordered_markers(s: Seq<char>, i: int, j: int, k: int)
    requires
        find(s, sql_marker()) == Some(i),
        find(s, explanation_marker()) == Some(j),
        find(s, confidence_marker()) == Some(k),
        i + sql_marker().len() <= j,
        j + explanation_marker().len() <= k,
    ensures
        reply_sql(s) == trim(s.subrange(i + sql_marker().len(), j)),
        reply_explanation(s) == Some(trim(s.subrange(j + explanation_marker().len(), k))),
        reply_confidence(s) == Some(
            trim(s.subrange(k + confidence_marker().len(), s.len() as int)),
        ),
{
    lemma_found_in_bounds(s, sql_marker(), 0);
    lemma_find_from_later(s, explanation_marker(), 0, i + sql_marker().len(), j);
    lemma_find_from_later(s, confidence_marker(), 0, j + explanation_marker().len(), k);
}

/// `x` holds none of the three markers.
pub open spec fn marker_free(x: Seq<char>) -> bool {
    &&& find(x, sql_marker()).is_none()
    &&& find(x, explanation_marker()).is_none()
    &&& find(x, confidence_marker()).is_none()
}

proof fn lemma_absent_from(x: Seq<char>, m: Seq<char>, y: int, i: int)
    requires
        find_from(x, m, y).is_none(),
        0 <= y <= i,
    ensures
        !occurs_at(x, m, i),
    decreases i - y,
{
    if y < i {
        if !(y < 0 || y + m.len() > x.len()) && !occurs_at(x, m, y) {
            lemma_absent_from(x, m, y + 1, i);
        }
    }
}

proof fn lemma_first_at(r: Seq<char>, m: Seq<char>, x: int, t: int)
    requires
        0 <= x <= t,
        occurs_at(r, m, t),
        forall|i: int| 0 <= i < t ==> !occurs_at(r, m, i),
    ensures
        find_from(r, m, x) == Some(t),
    decreases t - x,
{
    if x < t {
        lemma_first_at(r, m, x + 1, t);
    }
}

proof fn lemma_window_char(r: Seq<char>, m: Seq<char>, i: int, q: int)
    requires
        occurs_at(r, m, i),
        i <= q < i + m.len(),
    ensures
        r[q] == m[q - i],
{
    assert(r.subrange(i, i + m.len())[q - i] == r[q]);
}

proof fn lemma_window_inside(r: Seq<char>, x: Seq<char>, off: int, m: Seq<char>, i: int)
    requires
        0 <= off,
        off + x.len() <= r.len(),
        r.subrange(off, off + x.len()) == x,
        off <= i,
        i + m.len() <= off + x.len(),
        occurs_at(r, m, i),
    ensures
        occurs_at(x, m, i - off),
{
    assert(x.subrange(i - off, i - off + m.len()) =~= r.subrange(i, i + m.len()));
}

/// `r` is `p`, `SQL:`, `s`, `EXPLANATION:`, `e`, `CONFIDENCE:` and `c` in
/// this order.
pub open spec fn laid_out(r: Seq<char>, p: Seq<char>, s: Seq<char>, e: Seq<char>, c: Seq<char>) -> bool {
    let a = p.len() as int;
    let j = a + 4 + s.len();
    let k = j + 12 + e.len();
    &&& sql_marker().len() == 4
    &&& explanation_marker().len() == 12
    &&& confidence_marker().len() == 11
    &&& r.len() == k + 11 + c.len()
    &&& r.subrange(0, a) == p
    &&& r.subrange(a, a + 4) == sql_marker()
    &&& r.subrange(a + 4, j) == s
    &&& r.subrange(j, j + 12) == explanation_marker()
    &&& r.subrange(j + 12, k) == e
    &&& r.subrange(k, k + 11) == confidence_marker()
    &&& r.subrange(k + 11, r.len() as int) == c
}

proof fn lemma_laid_out(p: Seq<char>, s: Seq<char>, e: Seq<char>, c: Seq<char>)
    ensures
        laid_out(p + sql_marker() + s + explanation_marker() + e + confidence_marker() + c, p, s, e, c),
{
    reveal_strlit("SQL:");
    reveal_strlit("EXPLANATION:");
    reveal_strlit("CONFIDENCE:");
    let r = p + sql_marker() + s + explanation_marker() + e + confidence_marker() + c;
    let a = p.len() as int;
    let j = a + 4 + s.len();
    let k = j + 12 + e.len();
    assert(r.subrange(0, a) =~= p);
    assert(r.subrange(a, a + 4) =~= sql_marker());
    assert(r.subrange(a + 4, j) =~= s);
    assert(r.subrange(j, j + 12) =~= explanation_marker());
    assert(r.subrange(j + 12, k) =~= e);
    assert(r.subrange(k, k + 11) =~= confidence_marker());
    assert(r.subrange(k + 11, r.len() as int) =~= c);
}

/// The character at `q` of `r`, read through the part laid at `off`.
proof fn lemma_part_char(r: Seq<char>, x: Seq<char>, off: int, q: int)
    requires
        0 <= off <= q < off + x.len() <= r.len(),
        r.subrange(off, off + x.len()) == x,
    ensures
        r[q] == x[q - off],
{
    assert(r.subrange(off, off + x.len())[q - off] == r[q]);
}

proof fn lemma_no_early_sql(r: Seq<char>, p: Seq<char>, s: Seq<char>, e: Seq<char>, c: Seq<char>)
    requires
        laid_out(r, p, s, e, c),
        marker_free(p),
    ensures
        forall|i: int| 0 <= i < p.len() ==> !occurs_at(r, sql_marker(), i),
{
    reveal_strlit("SQL:");
    let sm = sql_marker();
    let a = p.len() as int;
    lemma_part_char(r, sm, a, a);
    assert forall|i: int| 0 <= i < a implies !occurs_at(r, sm, i) by {
        if occurs_at(r, sm, i) {
            if i + 4 <= a {
                lemma_window_inside(r, p, 0, sm, i);
                lemma_absent_from(p, sm, 0, i);
            } else {
                lemma_window_char(r, sm, i, a);
            }
        }
    }
}

proof fn lemma_no_early_explanation(r: Seq<char>, p: Seq<char>, s: Seq<char>, e: Seq<char>, c: Seq<char>)
    requires
        laid_out(r, p, s, e, c),
        marker_free(p),
        marker_free(s),
    ensures
        forall|i: int| 0 <= i < p.len() + 4 + s.len() ==> !occurs_at(r, explanation_marker(), i),
{
    reveal_strlit("SQL:");
    reveal_strlit("EXPLANATION:");
    let sm = sql_marker();
    let em = explanation_marker();
    let a = p.len() as int;
    let j = a + 4 + s.len();
    lemma_part_char(r, sm, a, a);
    lemma_part_char(r, em, j, j);
    assert forall|i: int| 0 <= i < j implies !occurs_at(r, em, i) by {
        if occurs_at(r, em, i) {
            if i < a {
                if i + 12 <= a {
                    lemma_window_inside(r, p, 0, em, i);
                    lemma_absent_from(p, em, 0, i);
                } else {
                    lemma_window_char(r, em, i, a);
                }
            } else if i < a + 4 {
                lemma_window_char(r, em, i, i);
                lemma_part_char(r, sm, a, i);
            } else if i + 12 <= j {
                lemma_window_inside(r, s, a + 4, em, i);
                lemma_absent_from(s, em, 0, i - (a + 4));
            } else {
                lemma_window_char(r, em, i, j);
            }
        }
    }
}

proof fn lemma_no_early_confidence(r: Seq<char>, p: Seq<char>, s: Seq<char>, e: Seq<char>, c: Seq<char>)
    requires
        laid_out(r, p, s, e, c),
        marker_free(p),
        marker_free(s),
        marker_free(e),
    ensures
        forall|i: int|
            0 <= i < p.len() + 16 + s.len() + e.len() ==> !occurs_at(r, confidence_marker(), i),
{
    reveal_strlit("SQL:");
    reveal_strlit("EXPLANATION:");
    reveal_strlit("CONFIDENCE:");
    let sm = sql_marker();
    let em = explanation_marker();
    let cm = confidence_marker();
    let a = p.len() as int;
    let j = a + 4 + s.len();
    let k = j + 12 + e.len();
    lemma_part_char(r, sm, a, a);
    lemma_part_char(r, em, j, j);
    lemma_part_char(r, em, j, j + 1);
    lemma_part_char(r, cm, k, k);
    lemma_part_char(r, cm, k, k + 1);
    assert forall|i: int| 0 <= i < k implies !occurs_at(r, cm, i) by {
        if occurs_at(r, cm, i) {
            if i < a {
                if i + 11 <= a {
                    lemma_window_inside(r, p, 0, cm, i);
                    lemma_absent_from(p, cm, 0, i);
                } else {
                    lemma_window_char(r, cm, i, a);
                }
            } else if i < a + 4 {
                lemma_window_char(r, cm, i, i);
                lemma_part_char(r, sm, a, i);
            } else if i < j {
                if i + 11 <= j {
                    lemma_window_inside(r, s, a + 4, cm, i);
                    lemma_absent_from(s, cm, 0, i - (a + 4));
                } else {
                    lemma_window_char(r, cm, i, j);
                    lemma_window_char(r, cm, i, j + 1);
                }
            } else if i < j + 12 {
                lemma_window_char(r, cm, i, i);
                lemma_part_char(r, em, j, i);
            } else if i + 11 <= k {
                lemma_window_inside(r, e, j + 12, cm, i);
                lemma_absent_from(e, cm, 0, i - (j + 12));
            } else {
                lemma_window_char(r, cm, i, k);
                lemma_window_char(r, cm, i, k + 1);
            }
        }
    }
}

/// When a reply is `p`, `SQL:`, `s`, `EXPLANATION:`, `e`, `CONFIDENCE:`
/// and `c` in this order, and none of `p`, `s`, `e`, `c` holds a marker, the
/// SQL is `s` trimmed, the explanation `e` trimmed and the confidence text
/// `c` trimmed.
pub proof fn lemma_well_formed_reply(p: Seq<char>, s: Seq<char>, e: Seq<char>, c: Seq<char>)
    requires
        marker_free(p),
        marker_free(s),
        marker_free(e),
        marker_free(c),
    ensures
        ({
            let r = p + sql_marker() + s + explanation_marker() + e + confidence_marker() + c;
            &&& reply_sql(r) == trim(s)
            &&& reply_explanation(r) == Some(trim(e))
            &&& reply_confidence(r) == Some(trim(c))
        }),
{
    let r = p + sql_marker() + s + explanation_marker() + e + confidence_marker() + c;
    let a = p.len() as int;
    let j = a + 4 + s.len();
    let k = j + 12 + e.len();
    lemma_laid_out(p, s, e, c);
    lemma_no_early_sql(r, p, s, e, c);
    lemma_no_early_explanation(r, p, s, e, c);
    lemma_no_early_confidence(r, p, s, e, c);
    assert(occurs_at(r, sql_marker(), a));
    assert(occurs_at(r, explanation_marker(), j));
    assert(occurs_at(r, confidence_marker(), k));
    lemma_first_at(r, sql_marker(), 0, a);
    lemma_first_at(r, explanation_marker(), 0, j);
    lemma_first_at(r, confidence_marker(), 0, k);
    lemma_ordered_markers(r, a, j, k);
}

/// A reply without the `SQL:` marker still yields a translation: its SQL is
/// the fallback query.
pub proof fn lemma_missing_sql_marker(s: Seq<char>)
    requires
        find(s, sql_marker()).is_none(),
    ensures
        reply_sql(s) == fallback_sql(),
{
}

/// Splits a reply into its SQL, explanation and confidence fields. Each
/// field is found independently by the first occurrence of its marker and
/// runs to the next marker of the following field, or to the end; a reply
/// without `SQL:` gets the fallback query.
pub fn parse_llm_response(response: &str) -> (r: QueryResult)
    ensures
        r.sql_query@ == reply_sql(response@),
        opt_view(r.explanation) == reply_explanation(response@),
        opt_view(r.confidence_text) == reply_confidence(response@),
{
    proof {
        reveal_strlit("SQL:");
        reveal_strlit("EXPLANATION:");
        reveal_strlit("CONFIDENCE:");
    }
    let s = chars_of(response);
    let sql_m = chars_of("SQL:");
    let expl_m = chars_of("EXPLANATION:");
    let conf_m = chars_of("CONFIDENCE:");
    let sql = extract_field(response, &s, &sql_m, Some(&expl_m));
    let explanation = extract_field(response, &s, &expl_m, Some(&conf_m));
    let confidence_text = extract_field(response, &s, &conf_m, None);
    let sql_query = match sql {
        Some(q) => q,
        None => String::from_str("SELECT * FROM cars LIMIT 10;"),
    };
    QueryResult { sql_query, explanation, confidence_text }
}

} // verus!
