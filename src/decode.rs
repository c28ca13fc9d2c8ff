//! Decoding of result rows whose column types are not known to the caller.
//!
//! The driver offers only type-checked extraction, so each cell comes with the
//! outcome of every extraction the ladder may try; the ladder reads them in a
//! fixed order and stops at the first that accepts the column's type.

use vstd::prelude::*;

verus! {

broadcast use vstd::string::group_string_axioms;

/// The outcome of one typed extraction from a cell.
pub enum Attempt<T> {
    /// The column's type cannot be read as `T`.
    Mismatch,
    /// The column's type can be read as `T`, and the cell is NULL.
    Null,
    /// The column's type can be read as `T`, and the cell holds this value.
    Value(T),
}

/// Whether a cell is NULL, and the outcomes of the extractions the ladder may
/// try on it, in ladder order, with the type name that the store reports for
/// the column. The ladder never reads an attempt after the first that
/// accepts the type, nor any attempt of a NULL cell, so those need not be
/// made; they may be left as `Mismatch`.
pub struct CellAttempts {
    /// The cell is SQL NULL, whatever the column's type.
    pub is_null: bool,
    pub int4: Attempt<i32>,
    pub int8: Attempt<i64>,
    /// A double-precision value, as its IEEE-754 binary64 bit pattern.
    pub float8: Attempt<u64>,
    pub text: Attempt<String>,
    pub boolean: Attempt<bool>,
    /// A JSON value, as its serialized text.
    pub json: Attempt<String>,
    /// The broader string reading tried after JSON.
    pub text_lossy: Attempt<String>,
    pub column_type: String,
}

/// One cell of a result row: the column's name and what can be read from it.
pub struct RawCell {
    pub column: String,
    pub attempts: CellAttempts,
}

/// A decoded cell.
pub enum DecodedValue {
    Null,
    Integer(i64),
    /// A double-precision value, as its IEEE-754 binary64 bit pattern.
    Float(u64),
    Text(String),
    Boolean(bool),
    /// A JSON value, as its serialized text.
    Json(String),
    /// No extraction accepted the column's type; holds the type's name.
    Unrepresentable(String),
}

/// The mathematical value of a decoded cell.
pub enum ValueView {
    Null,
    Integer(int),
    Float(u64),
    Text(Seq<char>),
    Boolean(bool),
    Json(Seq<char>),
    Unrepresentable(Seq<char>),
}

impl View for DecodedValue {
    type V = ValueView;

    open spec fn view(&self) -> ValueView {
        match self {
            DecodedValue::Null => ValueView::Null,
            DecodedValue::Integer(v) => ValueView::Integer(*v as int),
            DecodedValue::Float(b) => ValueView::Float(*b),
            DecodedValue::Text(s) => ValueView::Text(s@),
            DecodedValue::Boolean(b) => ValueView::Boolean(*b),
            DecodedValue::Json(s) => ValueView::Json(s@),
            DecodedValue::Unrepresentable(s) => ValueView::Unrepresentable(s@),
        }
    }
}

/// The ladder read from the first text extraction on: text, boolean, JSON,
/// the broader text reading, and last the type-name marker.
pub open spec fn decode_from_text(c: CellAttempts) -> ValueView {
    match c.text {
        Attempt::Null => ValueView::Null,
        Attempt::Value(s) => ValueView::Text(s@),
        Attempt::Mismatch => match c.boolean {
            Attempt::Null => ValueView::Null,
            Attempt::Value(b) => ValueView::Boolean(b),
            Attempt::Mismatch => match c.json {
                Attempt::Null => ValueView::Null,
                Attempt::Value(s) => ValueView::Json(s@),
                Attempt::Mismatch => match c.text_lossy {
                    Attempt::Null => ValueView::Null,
                    Attempt::Value(s) => ValueView::Text(s@),
                    Attempt::Mismatch => ValueView::Unrepresentable(c.column_type@),
                },
            },
        },
    }
}

/// The decoded value of a cell: null for a NULL cell; otherwise the first
/// extraction, in ladder order, that accepts the column's type decides it.
pub open spec fn decode_spec(c: CellAttempts) -> ValueView {
    if c.is_null {
        ValueView::Null
    } else {
        decode_ladder(c)
    }
}

/// The ladder: the first extraction that accepts the column's type decides.
pub open spec fn decode_ladder(c: CellAttempts) -> ValueView {
    match c.int4 {
        Attempt::Null => ValueView::Null,
        Attempt::Value(v) => ValueView::Integer(v as int),
        Attempt::Mismatch => match c.int8 {
            Attempt::Null => ValueView::Null,
            Attempt::Value(v) => ValueView::Integer(v as int),
            Attempt::Mismatch => match c.float8 {
                Attempt::Null => ValueView::Null,
                Attempt::Value(b) => ValueView::Float(b),
                Attempt::Mismatch => decode_from_text(c),
            },
        },
    }
}

fn decode_text_step(a: &Attempt<String>) -> (r: Option<DecodedValue>)
    ensures
        match a {
            Attempt::Mismatch => r is None,
            Attempt::Null => r == Some(DecodedValue::Null),
            Attempt::Value(s) => r is Some && r->0@ == ValueView::Text(s@),
        },
{
    match a {
        Attempt::Mismatch => None,
        Attempt::Null => Some(DecodedValue::Null),
        Attempt::Value(s) => Some(DecodedValue::Text(s.clone())),
    }
}

/// Decodes one cell: a NULL cell to null, any other by the ladder: 32-bit
/// integer, 64-bit integer, double, text, boolean, JSON, broader text, and
/// else a marker naming the type.
pub fn decode_cell(c: &CellAttempts) -> (r: DecodedValue)
    ensures
        r@ == decode_spec(*c),
{
    if c.is_null {
        return DecodedValue::Null;
    }
    match c.int4 {
        Attempt::Null => return DecodedValue::Null,
        Attempt::Value(v) => return DecodedValue::Integer(v as i64),
        Attempt::Mismatch => {},
    }
    match c.int8 {
        Attempt::Null => return DecodedValue::Null,
        Attempt::Value(v) => return DecodedValue::Integer(v),
        Attempt::Mismatch => {},
    }
    match c.float8 {
        Attempt::Null => return DecodedValue::Null,
        Attempt::Value(b) => return DecodedValue::Float(b),
        Attempt::Mismatch => {},
    }
    if let Some(v) = decode_text_step(&c.text) {
        return v;
    }
    match c.boolean {
        Attempt::Null => return DecodedValue::Null,
        Attempt::Value(b) => return DecodedValue::Boolean(b),
        Attempt::Mismatch => {},
    }
    match &c.json {
        Attempt::Null => return DecodedValue::Null,
        Attempt::Value(s) => return DecodedValue::Json(s.clone()),
        Attempt::Mismatch => {},
    }
    if let Some(v) = decode_text_step(&c.text_lossy) {
        return v;
    }
    DecodedValue::Unrepresentable(c.column_type.clone())
}

/// A NULL cell decodes to the null tag, whatever its declared type and
/// whichever extractions accept that type.
pub proof fn lemma_null_cell_decodes_to_null(c: CellAttempts)
    requires
        c.is_null,
    ensures
        decode_spec(c) == ValueView::Null,
{
}

/// The text that stands for a cell no extraction could read.
pub open spec fn marker_text(column_type: Seq<char>) -> Seq<char> {
    "Value of type: "@ + column_type
}

impl DecodedValue {
    /// The marker text of an unrepresentable cell, naming its type; `None`
    /// for any other value.
    pub fn marker(&self) -> (r: Option<String>)
        ensures
            match self@ {
                ValueView::Unrepresentable(t) => r is Some && r->0@ == marker_text(t),
                _ => r is None,
            },
    {
        match self {
            DecodedValue::Unrepresentable(t) => {
                let mut s = String::from_str("Value of type: ");
                s.append(t.as_str());
                Some(s)
            },
            _ => None,
        }
    }
}

/// One column of a decoded row.
pub struct Entry {
    pub column: String,
    pub value: DecodedValue,
}

/// A decoded row: column names, each once, with their values, in the order
/// in which each name first appeared.
pub struct DecodedRow {
    pub entries: Vec<Entry>,
}

pub type RowView = Seq<(Seq<char>, ValueView)>;

impl View for DecodedRow {
    type V = RowView;

    open spec fn view(&self) -> RowView {
        self.entries@.map_values(|e: Entry| (e.column@, e.value@))
    }
}

/// No column name occurs twice in `m`.
pub open spec fn keys_unique(m: RowView) -> bool {
    forall|i: int, j: int| 0 <= i < j < m.len() ==> m[i].0 != m[j].0
}

pub open spec fn has_key(m: RowView, k: Seq<char>) -> bool {
    exists|i: int| 0 <= i < m.len() && m[i].0 == k
}

/// The value that `m` gives column `k`.
pub open spec fn value_of(m: RowView, k: Seq<char>) -> Option<ValueView> {
    if has_key(m, k) {
        Some(m[choose|i: int| 0 <= i < m.len() && m[i].0 == k].1)
    } else {
        None
    }
}

/// `m` with column `k` set to `v`: in place when `k` is there, else at the end.
pub open spec fn put(m: RowView, k: Seq<char>, v: ValueView) -> RowView {
    if has_key(m, k) {
        m.update(choose|i: int| 0 <= i < m.len() && m[i].0 == k, (k, v))
    } else {
        m.push((k, v))
    }
}

/// The decoded row of `cells`: each cell decoded and put under its column's
/// name, left to right, so that the last cell of a name wins.
pub open spec fn decode_row_spec(cells: Seq<RawCell>) -> RowView
    decreases cells.len(),
{
    if cells.len() == 0 {
        Seq::empty()
    } else {
        put(
            decode_row_spec(cells.drop_last()),
            cells.last().column@,
            decode_spec(cells.last().attempts),
        )
    }
}

/// The decoded value of the last cell of `cells` named `k`, if any.
pub open spec fn last_value(cells: Seq<RawCell>, k: Seq<char>) -> Option<ValueView>
    decreases cells.len(),
{
    if cells.len() == 0 {
        None
    } else if cells.last().column@ == k {
        Some(decode_spec(cells.last().attempts))
    } else {
        last_value(cells.drop_last(), k)
    }
}

/// Putting a column keeps names unique, sets that column and leaves the
/// others.
pub proof fn lemma_put(m: RowView, k: Seq<char>, v: ValueView)
    requires
        keys_unique(m),
    ensures
        keys_unique(put(m, k, v)),
        value_of(put(m, k, v), k) == Some(v),
        forall|k2: Seq<char>| k2 != k ==> value_of(put(m, k, v), k2) == value_of(m, k2),
{
    let r = put(m, k, v);
    if has_key(m, k) {
        let i = choose|i: int| 0 <= i < m.len() && m[i].0 == k;
        assert forall|a: int| 0 <= a < r.len() implies r[a].0 == m[a].0 by {}
        assert(r[i].0 == k);
        assert(has_key(r, k));
        assert forall|k2: Seq<char>| k2 != k implies value_of(r, k2) == value_of(m, k2) by {
            if has_key(m, k2) {
                let a = choose|a: int| 0 <= a < m.len() && m[a].0 == k2;
                assert(r[a].0 == k2);
                assert(has_key(r, k2));
            } else {
                assert(!has_key(r, k2));
            }
        }
    } else {
        assert(r[m.len() as int].0 == k);
        assert(has_key(r, k));
        assert forall|k2: Seq<char>| k2 != k implies value_of(r, k2) == value_of(m, k2) by {
            if has_key(m, k2) {
                let a = choose|a: int| 0 <= a < m.len() && m[a].0 == k2;
                assert(r[a].0 == k2);
                assert(has_key(r, k2));
            } else {
                assert(!has_key(r, k2));
            }
        }
    }
}

/// Decoding a row never loses or invents a column: the decoded row names
/// each column of the input once, and gives it the decoded value of the last
/// cell of that name.
pub proof fn lemma_decoded_row_columns(cells: Seq<RawCell>)
    ensures
        keys_unique(decode_row_spec(cells)),
        forall|k: Seq<char>| #[trigger]
            value_of(decode_row_spec(cells), k) == last_value(cells, k),
    decreases cells.len(),
{
    if cells.len() > 0 {
        let rest = cells.drop_last();
        lemma_decoded_row_columns(rest);
        lemma_put(
            decode_row_spec(rest),
            cells.last().column@,
            decode_spec(cells.last().attempts),
        );
        assert forall|k: Seq<char>|
            #[trigger] value_of(decode_row_spec(cells), k) == last_value(cells, k) by {
            assert(value_of(decode_row_spec(rest), k) == last_value(rest, k));
        }
    } else {
        assert forall|k: Seq<char>|
            #[trigger] value_of(decode_row_spec(cells), k) == last_value(cells, k) by {
            assert(!has_key(decode_row_spec(cells), k));
        }
    }
}

/// The column names of a decoded row are exactly those of the input row.
pub proof fn lemma_decoded_row_key_set(cells: Seq<RawCell>)
    ensures
        forall|k: Seq<char>|
            has_key(decode_row_spec(cells), k) <==> (exists|i: int|
                0 <= i < cells.len() && #[trigger] cells[i].column@ == k),
    decreases cells.len(),
{
    lemma_decoded_row_columns(cells);
    assert forall|k: Seq<char>|
        has_key(decode_row_spec(cells), k) <==> (exists|i: int|
            0 <= i < cells.len() && #[trigger] cells[i].column@ == k) by {
        lemma_last_value_some(cells, k);
        assert(value_of(decode_row_spec(cells), k) == last_value(cells, k));
    }
}

/// A name has a last cell exactly when some cell carries it.
pub proof fn lemma_last_value_some(cells: Seq<RawCell>, k: Seq<char>)
    ensures
        last_value(cells, k) is Some <==> exists|i: int|
            0 <= i < cells.len() && #[trigger] cells[i].column@ == k,
    decreases cells.len(),
{
    if cells.len() > 0 {
        let rest = cells.drop_last();
        lemma_last_value_some(rest, k);
        if cells.last().column@ != k {
            if exists|i: int| 0 <= i < cells.len() && #[trigger] cells[i].column@ == k {
                let i = choose|i: int| 0 <= i < cells.len() && #[trigger] cells[i].column@ == k;
                assert(rest[i].column@ == k);
            }
        } else {
            assert(cells[cells.len() - 1].column@ == k);
        }
    }
}

/// The position of column `k` among `entries`, if it is there.
fn position_of(entries: &Vec<Entry>, k: &String) -> (r: Option<usize>)
    ensures
        match r {
            Some(j) => j < entries@.len() && entries@[j as int].column@ == k@,
            None => forall|a: int| 0 <= a < entries@.len() ==> entries@[a].column@ != k@,
        },
{
    let mut j: usize = 0;
    while j < entries.len()
        invariant
            j <= entries@.len(),
            forall|a: int| 0 <= a < j ==> entries@[a].column@ != k@,
        decreases entries.len() - j,
    {
        if entries[j].column == *k {
            return Some(j);
        }
        j = j + 1;
    }
    None
}

/// Decodes one row: each cell by the ladder, put under its column's name;
/// when a name repeats, the last cell of that name wins, at the place where
/// the name first appeared.
pub fn decode_row(cells: &Vec<RawCell>) -> (r: DecodedRow)
    ensures
        r@ == decode_row_spec(cells@),
        keys_unique(r@),
{
    let mut row = DecodedRow { entries: Vec::new() };
    let mut i: usize = 0;
    proof {
        assert(row@ =~= decode_row_spec(cells@.subrange(0, 0)));
    }
    while i < cells.len()
        invariant
            i <= cells@.len(),
            row@ == decode_row_spec(cells@.subrange(0, i as int)),
        decreases cells.len() - i,
    {
        let cell = &cells[i];
        let value = decode_cell(&cell.attempts);
        let ghost m = row@;
        let ghost k = cell.column@;
        proof {
            lemma_decoded_row_columns(cells@.subrange(0, i as int));
            assert(cells@.subrange(0, i + 1).drop_last() =~= cells@.subrange(0, i as int));
            assert(cells@.subrange(0, i + 1).last() == cells@[i as int]);
        }
        let entry = Entry { column: cell.column.clone(), value };
        match position_of(&row.entries, &cell.column) {
            Some(j) => {
                proof {
                    assert(m[j as int].0 == k);
                    assert(has_key(m, k));
                    let c = choose|c: int| 0 <= c < m.len() && m[c].0 == k;
                    assert(c == j);
                }
                row.entries.set(j, entry);
                proof {
                    assert(row@ =~= m.update(j as int, (k, decode_spec(cells@[i as int].attempts))));
                }
            },
            None => {
                proof {
                    assert(!has_key(m, k));
                }
                row.entries.push(entry);
                proof {
                    assert(row@ =~= m.push((k, decode_spec(cells@[i as int].attempts))));
                }
            },
        }
        i = i + 1;
    }
    proof {
        assert(cells@.subrange(0, cells@.len() as int) =~= cells@);
        lemma_decoded_row_columns(cells@);
    }
    row
}

/// Decodes each row of a result set.
pub fn decode_rows(rows: &Vec<Vec<RawCell>>) -> (r: Vec<DecodedRow>)
    ensures
        r@.len() == rows@.len(),
        forall|i: int| 0 <= i < rows@.len() ==> #[trigger] r@[i]@ == decode_row_spec(rows@[i]@),
{
    let mut r: Vec<DecodedRow> = Vec::new();
    let mut i: usize = 0;
    while i < rows.len()
        invariant
            i <= rows@.len(),
            r@.len() == i,
            forall|a: int| 0 <= a < i ==> #[trigger] r@[a]@ == decode_row_spec(rows@[a]@),
        decreases rows.len() - i,
    {
        r.push(decode_row(&rows[i]));
        i = i + 1;
    }
    r
}

} // verus!
