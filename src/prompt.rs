//! The prompt sent to the completion service: the schema rendered as one
//! `Table:` line per table, the question, and the reply format it must follow.

use vstd::prelude::*;
use crate::schema::{columns_view, ColumnView, SchemaDescription, TableView};

verus! {

broadcast use vstd::string::group_string_axioms;

/// Stands in for the schema when there is none.
pub const NO_SCHEMA: &'static str = "No schema available.";

/// The instruction given to the completion service as its system message.
pub const SYSTEM_PROMPT: &'static str = "You are a helpful assistant that translates natural language questions into SQL queries for a PostgreSQL database.";

/// The prompt's text before the schema.
pub const PROMPT_HEAD: &'static str = "\nGiven the following PostgreSQL database schema:\n\n";

/// The prompt's text between the schema and the question.
pub const PROMPT_MID: &'static str = "\n\nTranslate this natural language question into a valid SQL query:\n\"";

/// The prompt's text after the question: the reply format.
pub const PROMPT_TAIL: &'static str = "\"\n\nReturn the answer in the following format:\nSQL: <the SQL query>\nEXPLANATION: <brief explanation of how the query works>\nCONFIDENCE: <a number from 0 to 1 indicating confidence>\n\nMake sure the SQL is valid PostgreSQL syntax, contains no syntax errors, and would run correctly against the described database.\n";

/// `name type` for one column.
pub open spec fn column_text(c: ColumnView) -> Seq<char> {
    c.0 + " "@ + c.1
}

/// The columns' texts joined by `, `.
pub open spec fn columns_text(cs: Seq<ColumnView>) -> Seq<char>
    decreases cs.len(),
{
    if cs.len() == 0 {
        Seq::empty()
    } else if cs.len() == 1 {
        column_text(cs[0])
    } else {
        columns_text(cs.drop_last()) + ", "@ + column_text(cs.last())
    }
}

/// `Table: name (col type, ...)` for one table.
pub open spec fn table_line(t: TableView) -> Seq<char> {
    "Table: "@ + t.0 + " ("@ + columns_text(t.1) + ")"@
}

/// The tables' lines joined by line breaks.
pub open spec fn tables_text(ts: Seq<TableView>) -> Seq<char>
    decreases ts.len(),
{
    if ts.len() == 0 {
        Seq::empty()
    } else if ts.len() == 1 {
        table_line(ts[0])
    } else {
        tables_text(ts.drop_last()) + "\n"@ + table_line(ts.last())
    }
}

/// The schema as the prompt shows it.
pub open spec fn schema_text(ts: Seq<TableView>) -> Seq<char> {
    if ts.len() == 0 {
        NO_SCHEMA@
    } else {
        tables_text(ts)
    }
}

/// The whole prompt for a question and an optional schema.
pub open spec fn prompt_text(query: Seq<char>, schema: Option<Seq<TableView>>) -> Seq<char> {
    let shown = match schema {
        Some(ts) => schema_text(ts),
        None => NO_SCHEMA@,
    };
    PROMPT_HEAD@ + shown + PROMPT_MID@ + query + PROMPT_TAIL@
}

fn append_columns(out: &mut String, cols: &Vec<crate::schema::ColumnDescriptor>)
    ensures
        final(out)@ == old(out)@ + columns_text(columns_view(cols@)),
{
    let ghost start = out@;
    let ghost cs = columns_view(cols@);
    let mut i: usize = 0;
    assert(cs.subrange(0, 0) =~= Seq::<ColumnView>::empty());
    assert(out@ =~= start + columns_text(cs.subrange(0, 0)));
    while i < cols.len()
        invariant
            i <= cols@.len(),
            cs == columns_view(cols@),
            out@ == start + columns_text(cs.subrange(0, i as int)),
        decreases cols.len() - i,
    {
        assert(cs.subrange(0, i + 1).drop_last() =~= cs.subrange(0, i as int));
        if i > 0 {
            out.append(", ");
        }
        out.append(cols[i].name.as_str());
        out.append(" ");
        out.append(cols[i].declared_type.as_str());
        assert(out@ =~= start + columns_text(cs.subrange(0, i + 1)));
        i = i + 1;
    }
    assert(cs.subrange(0, cols@.len() as int) =~= cs);
}

/// Renders the schema as one `Table: name (col type, ...)` line per table,
/// or the no-schema sentence when it has no table.
pub fn format_schema_for_prompt(schema: &SchemaDescription) -> (r: String)
    ensures
        r@ == schema_text(schema@),
{
    if schema.tables.len() == 0 {
        return String::from_str(NO_SCHEMA);
    }
    let ghost ts = schema@;
    let mut out = String::new();
    let mut i: usize = 0;
    assert(out@ =~= tables_text(ts.subrange(0, 0)));
    while i < schema.tables.len()
        invariant
            i <= schema.tables@.len(),
            ts == schema@,
            out@ == tables_text(ts.subrange(0, i as int)),
        decreases schema.tables.len() - i,
    {
        let ghost before = out@;
        assert(ts.subrange(0, i + 1).drop_last() =~= ts.subrange(0, i as int));
        if i > 0 {
            out.append("\n");
        }
        let table = &schema.tables[i];
        out.append("Table: ");
        out.append(table.name.as_str());
        out.append(" (");
        append_columns(&mut out, &table.columns);
        out.append(")");
        assert(ts[i as int] == table@);
        assert(out@ =~= tables_text(ts.subrange(0, i + 1)));
        i = i + 1;
    }
    assert(ts.subrange(0, ts.len() as int) =~= ts);
    out
}

/// Builds the prompt: the rendered schema (or the no-schema sentence), the
/// question, and the instruction to answer with `SQL:`, `EXPLANATION:` and
/// `CONFIDENCE:` fields.
pub fn generate_prompt(query: &str, schema: Option<&SchemaDescription>) -> (r: String)
    ensures
        r@ == prompt_text(
            query@,
            match schema {
                Some(s) => Some(s@),
                None => None,
            },
        ),
{
    let shown = match schema {
        Some(s) => format_schema_for_prompt(s),
        None => String::from_str(NO_SCHEMA),
    };
    let mut out = String::from_str(PROMPT_HEAD);
    out.append(shown.as_str());
    out.append(PROMPT_MID);
    out.append(query);
    out.append(PROMPT_TAIL);
    out
}

/// The system message of a completion request.
pub fn system_prompt() -> (r: String)
    ensures
        r@ == SYSTEM_PROMPT@,
{
    String::from_str(SYSTEM_PROMPT)
}

/// The model a pipeline request names when it names none.
pub fn default_model() -> (r: String)
    ensures
        r@ == "gpt-3.5-turbo"@,
{
    String::from_str("gpt-3.5-turbo")
}

/// The model a translation uses: the one asked for, else the configured one,
/// else `gpt-4`.
pub fn resolve_model(requested: Option<String>, configured: Option<String>) -> (r: String)
    ensures
        r@ == match requested {
            Some(m) => m@,
            None => match configured {
                Some(c) => c@,
                None => "gpt-4"@,
            },
        },
{
    match requested {
        Some(m) => m,
        None => match configured {
            Some(c) => c,
            None => String::from_str("gpt-4"),
        },
    }
}

} // verus!
