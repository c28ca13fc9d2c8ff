use nl2sql::decode::{Attempt, CellAttempts, DecodedValue, RawCell};
use nl2sql::pipeline::{
    completion_text, execution_outcome, raw_query_outcome, translation_failure_response,
    translation_from_completion, visualization_failure_response, Action, CompletionOutcome, ErrorKind,
    Pipeline, Purpose, QueryRequest, Stage, Step, StoreReply,
};
use nl2sql::schema::schema_or_fallback;
use nl2sql::prompt::generate_prompt;

fn int_cell(column: &str, v: i32) -> RawCell {
    RawCell {
        column: column.to_string(),
        attempts: CellAttempts {
            is_null: false,
            int4: Attempt::Value(v),
            int8: Attempt::Mismatch,
            float8: Attempt::Mismatch,
            text: Attempt::Mismatch,
            boolean: Attempt::Mismatch,
            json: Attempt::Mismatch,
            text_lossy: Attempt::Mismatch,
            column_type: "int4".to_string(),
        },
    }
}

fn answered(text: &str) -> CompletionOutcome {
    CompletionOutcome::Answered {
        status: 200,
        status_text: "200 OK".to_string(),
        body: String::new(),
        choices: Ok(vec![text.to_string()]),
    }
}

#[test]
fn scenario_show_all_cars() {
    let mut p = Pipeline::new("show all cars".to_string(), None, 100);
    assert_eq!(p.model, "gpt-3.5-turbo");
    match p.start(102) {
        Action::CallTranslator { natural_query, model } => {
            assert_eq!(natural_query, "show all cars");
            assert_eq!(model, "gpt-3.5-turbo");
        }
        _ => panic!("expected a translator call"),
    }
    let t = translation_from_completion(answered(
        "SQL: SELECT * FROM cars;\nEXPLANATION: returns all rows\nCONFIDENCE: 0.95",
    ));
    let sql = match p.on_translation(t, 142) {
        Action::CallExecutor { sql } => sql,
        _ => panic!("expected an executor call"),
    };
    assert_eq!(sql, "SELECT * FROM cars;");
    let outcome = execution_outcome(StoreReply::Rows {
        rows: vec![vec![int_cell("id", 1)], vec![int_cell("id", 2)]],
        elapsed_ms: 5,
    });
    match p.on_execution(outcome, 150) {
        Action::Respond(r) => {
            assert_eq!(r.natural_query, "show all cars");
            assert_eq!(r.sql_query, "SELECT * FROM cars;");
            assert_eq!(r.row_count, 2);
            assert!(matches!(r.rows[1].entries[0].value, DecodedValue::Integer(2)));
            assert_eq!(r.explanation.as_deref(), Some("returns all rows"));
            let c: f64 = r.confidence_text.unwrap().parse().unwrap();
            assert_eq!(c, 0.95);
            assert_eq!(r.llm_processing_time_ms, 40);
            assert_eq!(r.execution_time_ms, 8);
            assert_eq!(r.total_time_ms, 50);
        }
        _ => panic!("expected a response"),
    }
    assert_eq!(p.stage, Stage::Completed);
}

#[test]
fn scenario_sql_rejected() {
    let mut p = Pipeline::new("nonsense".to_string(), Some("gpt-4".to_string()), 0);
    p.start(0);
    p.on_translation(translation_from_completion(answered("SQL: SELEC * FRM cars")), 1);
    let outcome = execution_outcome(StoreReply::Rejected("syntax error at or near \"SELEC\"".to_string()));
    match p.on_execution(outcome, 8) {
        Action::Fail(e) => {
            assert_eq!(e.kind(), ErrorKind::Execution);
            assert_eq!(e.status_code(), 400);
            assert_eq!(e.message(), "Query execution error: syntax error at or near \"SELEC\"");
        }
        _ => panic!("expected a failure"),
    }
    assert_eq!(p.stage, Stage::Failed(Step::Execute));
    assert_eq!(p.execution_time_ms, 7);
    assert_eq!(p.llm_processing_time_ms, 1);
}

#[test]
fn scenario_completion_fails() {
    let mut p = Pipeline::new("show all cars".to_string(), None, 10);
    p.start(10);
    let t = translation_from_completion(CompletionOutcome::Answered {
        status: 500,
        status_text: "500 Internal Server Error".to_string(),
        body: "boom".to_string(),
        choices: Err("error decoding response body".to_string()),
    });
    match p.on_translation(t, 19) {
        Action::Fail(e) => {
            assert_eq!(e.kind(), ErrorKind::Upstream);
            assert_eq!(e.status_code(), 502);
            assert_eq!(
                e.message(),
                "Error processing query with LLM: OpenAI API error: 500 Internal Server Error - boom"
            );
        }
        _ => panic!("expected a failure and no executor call"),
    }
    assert_eq!(p.stage, Stage::Failed(Step::Translate));
    assert_eq!(p.llm_processing_time_ms, 9);
}

#[test]
fn scenario_schema_unreachable_pipeline_continues() {
    let schema = schema_or_fallback(None);
    let prompt = generate_prompt("show all cars", Some(&schema));
    assert!(prompt.contains("Table: cars (id integer, model varchar(50), mpg numeric(5,1), cyl integer"));
    let mut p = Pipeline::new("show all cars".to_string(), None, 0);
    p.start(0);
    let a = p.on_translation(translation_from_completion(answered("SQL: SELECT 1")), 1);
    assert!(matches!(a, Action::CallExecutor { .. }));
    assert_eq!(p.stage, Stage::Executing);
}

#[test]
fn completion_failures_are_classified() {
    let e = translation_from_completion(CompletionOutcome::MissingCredentials).err().unwrap();
    assert_eq!(e.kind(), ErrorKind::Config);
    assert_eq!(e.status_code(), 500);
    assert_eq!(e.message(), "Error processing query with LLM: LLM_API_KEY environment variable not set");
    let e = translation_from_completion(CompletionOutcome::Unreachable("error sending request".to_string()))
        .err()
        .unwrap();
    assert_eq!(e.kind(), ErrorKind::Upstream);
    assert_eq!(e.message(), "Error processing query with LLM: error sending request");
    let e = translation_from_completion(CompletionOutcome::Answered {
        status: 200,
        status_text: "200 OK".to_string(),
        body: "{\"choices\":[]}".to_string(),
        choices: Ok(vec![]),
    })
    .err()
    .unwrap();
    assert_eq!(e.message(), "Error processing query with LLM: Empty response from OpenAI API");
    let e = translation_from_completion(CompletionOutcome::Answered {
        status: 200,
        status_text: "200 OK".to_string(),
        body: "not json".to_string(),
        choices: Err("error decoding response body".to_string()),
    })
    .err()
    .unwrap();
    assert_eq!(e.kind(), ErrorKind::Upstream);
    assert_eq!(e.message(), "Error processing query with LLM: error decoding response body");
    let (status, message) = translation_failure_response(&e);
    assert_eq!(status, 500);
    assert_eq!(message, "Error processing query: Error processing query with LLM: error decoding response body");
}

#[test]
fn visualization_completion_messages() {
    let e = completion_text(
        Purpose::Visualization,
        CompletionOutcome::Answered {
            status: 429,
            status_text: "429 Too Many Requests".to_string(),
            body: "slow down".to_string(),
            choices: Err("error decoding response body".to_string()),
        },
    )
    .err()
    .unwrap();
    assert_eq!(e.message(), "LLM API returned error: slow down");
    let (status, message) = visualization_failure_response(&e);
    assert_eq!(status, 500);
    assert_eq!(message, "Error calling LLM API: LLM API returned error: slow down");
    let e = completion_text(
        Purpose::Visualization,
        CompletionOutcome::Answered {
            status: 200,
            status_text: "200 OK".to_string(),
            body: String::new(),
            choices: Ok(vec![]),
        },
    )
    .err()
    .unwrap();
    assert_eq!(e.message(), "LLM API returned empty choices");
    let text = completion_text(
        Purpose::Visualization,
        CompletionOutcome::Answered {
            status: 201,
            status_text: "201 Created".to_string(),
            body: String::new(),
            choices: Ok(vec!["first".to_string(), "second".to_string()]),
        },
    )
    .ok()
    .unwrap();
    assert_eq!(text, "first");
}

#[test]
fn raw_query_failures_are_query_errors() {
    let e = raw_query_outcome(StoreReply::Rejected("bad".to_string())).err().unwrap();
    assert_eq!(e.status_code(), 400);
    assert_eq!(e.message(), "Query error: bad");
    let e = raw_query_outcome(StoreReply::Unreachable("down".to_string())).err().unwrap();
    assert_eq!(e.status_code(), 400);
    assert_eq!(e.message(), "Query error: down");
    let o = raw_query_outcome(StoreReply::Rows { rows: vec![vec![int_cell("x", 4)]], elapsed_ms: 2 }).ok().unwrap();
    assert_eq!(o.row_count, 1);
    assert_eq!(o.elapsed_ms, 2);
}

#[test]
fn missing_marker_translates_to_fallback() {
    let q = translation_from_completion(answered("no idea")).ok().unwrap();
    assert_eq!(q.sql_query, "SELECT * FROM cars LIMIT 10;");
}

#[test]
fn store_unreachable_is_connectivity() {
    let e = execution_outcome(StoreReply::Unreachable("refused".to_string())).err().unwrap();
    assert_eq!(e.kind(), ErrorKind::Connectivity);
    assert_eq!(e.status_code(), 500);
    assert_eq!(e.message(), "Database connection error: refused");
}

#[test]
fn column_names_of_first_row() {
    let o = execution_outcome(StoreReply::Rows {
        rows: vec![vec![int_cell("a", 1), int_cell("b", 2)]],
        elapsed_ms: 0,
    })
    .ok()
    .unwrap();
    assert_eq!(o.column_names(), vec!["a".to_string(), "b".to_string()]);
    let empty = execution_outcome(StoreReply::Rows { rows: vec![], elapsed_ms: 0 }).ok().unwrap();
    assert!(empty.column_names().is_empty());
    assert_eq!(empty.row_count, 0);
    let r = QueryRequest { query: "SELECT 1".to_string() };
    assert_eq!(r.query, "SELECT 1");
}
