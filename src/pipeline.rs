//! The request pipeline: translate the question, execute the SQL, and merge
//! the results with the stage timings. The network and store calls are made
//! by the caller; this module decides what each of their outcomes leads to.

use vstd::prelude::*;
use crate::decode::{decode_row_spec, decode_rows, DecodedRow, RawCell};
use crate::text::find;
use crate::reply::{fallback_sql, sql_marker, opt_view, parse_llm_response, reply_confidence, reply_explanation, reply_sql, QueryResult};
use crate::prompt::default_model;

verus! {

broadcast use vstd::string::group_string_axioms;

/// The class of a stage failure.
#[derive(PartialEq, Eq, Structural, Clone, Copy, Debug)]
pub enum ErrorKind {
    /// A required credential or address is missing.
    Config,
    /// The completion service is unreachable, failed, or sent a malformed reply.
    Upstream,
    /// The store rejected the SQL text.
    Execution,
    /// The store is unreachable.
    Connectivity,
}

/// A failure of one stage, with its message.
pub enum PipelineError {
    Config(String),
    Upstream(String),
    Execution(String),
    Connectivity(String),
}

impl View for PipelineError {
    type V = (ErrorKind, Seq<char>);

    open spec fn view(&self) -> (ErrorKind, Seq<char>) {
        match self {
            PipelineError::Config(m) => (ErrorKind::Config, m@),
            PipelineError::Upstream(m) => (ErrorKind::Upstream, m@),
            PipelineError::Execution(m) => (ErrorKind::Execution, m@),
            PipelineError::Connectivity(m) => (ErrorKind::Connectivity, m@),
        }
    }
}

/// The HTTP status class of each kind of failure: configuration and
/// connectivity are server faults, the completion service's failures are
/// gateway errors, and rejected SQL is a bad request.
pub open spec fn status_of(k: ErrorKind) -> u16 {
    match k {
        ErrorKind::Config => 500,
        ErrorKind::Upstream => 502,
        ErrorKind::Execution => 400,
        ErrorKind::Connectivity => 500,
    }
}

impl PipelineError {
    pub fn kind(&self) -> (r: ErrorKind)
        ensures
            r == self@.0,
    {
        match self {
            PipelineError::Config(_) => ErrorKind::Config,
            PipelineError::Upstream(_) => ErrorKind::Upstream,
            PipelineError::Execution(_) => ErrorKind::Execution,
            PipelineError::Connectivity(_) => ErrorKind::Connectivity,
        }
    }

    /// The status code the caller sees for this failure.
    pub fn status_code(&self) -> (r: u16)
        ensures
            r == status_of(self@.0),
    {
        match self {
            PipelineError::Config(_) => 500,
            PipelineError::Upstream(_) => 502,
            PipelineError::Execution(_) => 400,
            PipelineError::Connectivity(_) => 500,
        }
    }

    pub fn message(&self) -> (r: String)
        ensures
            r@ == self@.1,
    {
        match self {
            PipelineError::Config(m) => m.clone(),
            PipelineError::Upstream(m) => m.clone(),
            PipelineError::Execution(m) => m.clone(),
            PipelineError::Connectivity(m) => m.clone(),
        }
    }
}

fn prefixed(prefix: &str, detail: &str) -> (r: String)
    ensures
        r@ == prefix@ + detail@,
{
    let mut r = String::from_str(prefix);
    r.append(detail);
    r
}

/// What came of asking the completion service.
pub enum CompletionOutcome {
    /// The credential for the service is not configured.
    MissingCredentials,
    /// The service could not be reached; the transport's error text.
    Unreachable(String),
    /// The service answered. `status_text` is the status as displayed (code
    /// and reason), `body` the reply text, and `choices` the message contents
    /// of the reply, or the decoding error's text when the body is not the
    /// expected envelope.
    Answered { status: u16, status_text: String, body: String, choices: Result<Vec<String>, String> },
}

/// What a completion is asked for; each request words its failures in its
/// own way.
#[derive(PartialEq, Eq, Structural, Clone, Copy, Debug)]
pub enum Purpose {
    Translation,
    Visualization,
}

pub open spec fn is_success(status: u16) -> bool {
    200 <= status <= 299
}

/// The fields of a translation: SQL, explanation, confidence text.
pub type TranslationView = (Seq<char>, Option<Seq<char>>, Option<Seq<char>>);

/// The message for an answer with a failure status.
pub open spec fn status_error_text(purpose: Purpose, status_text: Seq<char>, body: Seq<char>) -> Seq<char> {
    match purpose {
        Purpose::Translation => "OpenAI API error: "@ + status_text + " - "@ + body,
        Purpose::Visualization => "LLM API returned error: "@ + body,
    }
}

/// The message for an answer with no choice.
pub open spec fn empty_reply_text(purpose: Purpose) -> Seq<char> {
    match purpose {
        Purpose::Translation => "Empty response from OpenAI API"@,
        Purpose::Visualization => "LLM API returned empty choices"@,
    }
}

/// The reply text that a completion outcome yields: the first choice's
/// content, or the failure the outcome amounts to.
pub open spec fn completion_text_spec(purpose: Purpose, o: CompletionOutcome) -> Result<Seq<char>, (ErrorKind, Seq<char>)> {
    match o {
        CompletionOutcome::MissingCredentials => Err(
            (ErrorKind::Config, "LLM_API_KEY environment variable not set"@),
        ),
        CompletionOutcome::Unreachable(m) => Err((ErrorKind::Upstream, m@)),
        CompletionOutcome::Answered { status, status_text, body, choices } => if !is_success(
            status,
        ) {
            Err((ErrorKind::Upstream, status_error_text(purpose, status_text@, body@)))
        } else {
            match choices {
                Err(m) => Err((ErrorKind::Upstream, m@)),
                Ok(cs) => if cs@.len() == 0 {
                    Err((ErrorKind::Upstream, empty_reply_text(purpose)))
                } else {
                    Ok(cs@[0]@)
                },
            }
        },
    }
}

/// The translation that a completion outcome leads to; a failure keeps its
/// kind and is worded as a failure to process the query.
pub open spec fn translation_spec(o: CompletionOutcome) -> Result<TranslationView, (ErrorKind, Seq<char>)> {
    match completion_text_spec(Purpose::Translation, o) {
        Ok(text) => Ok((reply_sql(text), reply_explanation(text), reply_confidence(text))),
        Err(e) => Err((e.0, "Error processing query with LLM: "@ + e.1)),
    }
}

pub open spec fn result_view(r: Result<QueryResult, PipelineError>) -> Result<TranslationView, (ErrorKind, Seq<char>)> {
    match r {
        Ok(q) => Ok(q.fields()),
        Err(e) => Err(e@),
    }
}

/// The reply text of a completion: the first choice's content when the
/// service answered with success and a well-formed, non-empty list of
/// choices; else the failure, classed as configuration or upstream.
pub fn completion_text(purpose: Purpose, outcome: CompletionOutcome) -> (r: Result<String, PipelineError>)
    ensures
        match r {
            Ok(s) => completion_text_spec(purpose, outcome) == Ok::<
                Seq<char>,
                (ErrorKind, Seq<char>),
            >(s@),
            Err(e) => completion_text_spec(purpose, outcome) == Err::<
                Seq<char>,
                (ErrorKind, Seq<char>),
            >(e@),
        },
{
    match outcome {
        CompletionOutcome::MissingCredentials => Err(
            PipelineError::Config(String::from_str("LLM_API_KEY environment variable not set")),
        ),
        CompletionOutcome::Unreachable(m) => Err(PipelineError::Upstream(m)),
        CompletionOutcome::Answered { status, status_text, body, choices } => {
            if status < 200 || status > 299 {
                let message = match purpose {
                    Purpose::Translation => {
                        let mut m = String::from_str("OpenAI API error: ");
                        m.append(status_text.as_str());
                        m.append(" - ");
                        m.append(body.as_str());
                        m
                    },
                    Purpose::Visualization => prefixed("LLM API returned error: ", body.as_str()),
                };
                return Err(PipelineError::Upstream(message));
            }
            match choices {
                Err(m) => Err(PipelineError::Upstream(m)),
                Ok(cs) => {
                    if cs.len() == 0 {
                        let message = match purpose {
                            Purpose::Translation => String::from_str("Empty response from OpenAI API"),
                            Purpose::Visualization => String::from_str("LLM API returned empty choices"),
                        };
                        Err(PipelineError::Upstream(message))
                    } else {
                        let first = cs[0].clone();
                        Ok(first)
                    }
                },
            }
        },
    }
}

/// Turns the completion service's outcome into a translation: the first
/// choice's text parsed into its fields, or the failure it amounts to,
/// worded as a failure to process the query.
pub fn translation_from_completion(outcome: CompletionOutcome) -> (r: Result<QueryResult, PipelineError>)
    ensures
        result_view(r) == translation_spec(outcome),
{
    match completion_text(Purpose::Translation, outcome) {
        Ok(text) => Ok(parse_llm_response(text.as_str())),
        Err(e) => {
            let message = prefixed("Error processing query with LLM: ", e.message().as_str());
            let kind = e.kind();
            Err(
                match kind {
                    ErrorKind::Config => PipelineError::Config(message),
                    ErrorKind::Upstream => PipelineError::Upstream(message),
                    ErrorKind::Execution => PipelineError::Execution(message),
                    ErrorKind::Connectivity => PipelineError::Connectivity(message),
                },
            )
        },
    }
}

/// The status and message with which the translation endpoint reports a
/// failed translation.
pub fn translation_failure_response(e: &PipelineError) -> (r: (u16, String))
    ensures
        r.0 == 500,
        r.1@ == "Error processing query: "@ + e@.1,
{
    (500, prefixed("Error processing query: ", e.message().as_str()))
}

/// The status and message with which the visualization endpoint reports a
/// failed completion.
pub fn visualization_failure_response(e: &PipelineError) -> (r: (u16, String))
    ensures
        r.0 == 500,
        r.1@ == "Error calling LLM API: "@ + e@.1,
{
    (500, prefixed("Error calling LLM API: ", e.message().as_str()))
}

/// A successful completion whose first choice has no `SQL:` marker still
/// translates: the result is the fallback query, not a failure.
pub proof fn lemma_translation_without_sql_marker(o: CompletionOutcome)
    requires
        o is Answered,
        is_success(o->status),
        o->choices is Ok,
        o->choices->Ok_0@.len() > 0,
        find(o->choices->Ok_0@[0]@, sql_marker()).is_none(),
    ensures
        translation_spec(o) is Ok,
        translation_spec(o)->Ok_0.0 == fallback_sql(),
{
}

/// The body of a request to run raw SQL text.
pub struct QueryRequest {
    pub query: String,
}

/// The decoded rows of one query with their count and the time it took.
pub struct ExecutionOutcome {
    pub rows: Vec<DecodedRow>,
    pub row_count: usize,
    pub elapsed_ms: u64,
}

/// What came of running SQL text against the store.
pub enum StoreReply {
    /// The store could not be reached.
    Unreachable(String),
    /// The store rejected the SQL text.
    Rejected(String),
    /// The store returned these rows after `elapsed_ms` milliseconds.
    Rows { rows: Vec<Vec<RawCell>>, elapsed_ms: u64 },
}

/// Turns the store's reply into an execution outcome: the rows decoded and
/// counted, or a connectivity or execution failure.
pub fn execution_outcome(reply: StoreReply) -> (r: Result<ExecutionOutcome, PipelineError>)
    ensures
        match reply {
            StoreReply::Unreachable(m) => r is Err && r->Err_0@ == (
                ErrorKind::Connectivity,
                "Database connection error: "@ + m@,
            ),
            StoreReply::Rejected(m) => r is Err && r->Err_0@ == (
                ErrorKind::Execution,
                "Query execution error: "@ + m@,
            ),
            StoreReply::Rows { rows, elapsed_ms } => r is Ok && ({
                let o = r->Ok_0;
                &&& o.rows@.len() == rows@.len()
                &&& o.row_count == rows@.len()
                &&& o.elapsed_ms == elapsed_ms
                &&& forall|i: int|
                    0 <= i < rows@.len() ==> #[trigger] o.rows@[i]@ == decode_row_spec(rows@[i]@)
            }),
        },
{
    match reply {
        StoreReply::Unreachable(m) => Err(
            PipelineError::Connectivity(prefixed("Database connection error: ", m.as_str())),
        ),
        StoreReply::Rejected(m) => Err(
            PipelineError::Execution(prefixed("Query execution error: ", m.as_str())),
        ),
        StoreReply::Rows { rows, elapsed_ms } => {
            let decoded = decode_rows(&rows);
            let row_count = decoded.len();
            Ok(ExecutionOutcome { rows: decoded, row_count, elapsed_ms })
        },
    }
}

/// The outcome of a raw SQL request: the rows decoded and counted, or a
/// failure of the request, whatever went wrong, worded as a query error.
pub fn raw_query_outcome(reply: StoreReply) -> (r: Result<ExecutionOutcome, PipelineError>)
    ensures
        match reply {
            StoreReply::Unreachable(m) => r is Err && r->Err_0@ == (
                ErrorKind::Execution,
                "Query error: "@ + m@,
            ),
            StoreReply::Rejected(m) => r is Err && r->Err_0@ == (
                ErrorKind::Execution,
                "Query error: "@ + m@,
            ),
            StoreReply::Rows { rows, elapsed_ms } => r is Ok && ({
                let o = r->Ok_0;
                &&& o.rows@.len() == rows@.len()
                &&& o.row_count == rows@.len()
                &&& o.elapsed_ms == elapsed_ms
                &&& forall|i: int|
                    0 <= i < rows@.len() ==> #[trigger] o.rows@[i]@ == decode_row_spec(rows@[i]@)
            }),
        },
{
    match reply {
        StoreReply::Unreachable(m) => Err(
            PipelineError::Execution(prefixed("Query error: ", m.as_str())),
        ),
        StoreReply::Rejected(m) => Err(
            PipelineError::Execution(prefixed("Query error: ", m.as_str())),
        ),
        rows => execution_outcome(rows),
    }
}

impl ExecutionOutcome {
    /// The column names of the first row, or none when there is no row.
    pub fn column_names(&self) -> (r: Vec<String>)
        ensures
            self.rows@.len() == 0 ==> r@.len() == 0,
            self.rows@.len() > 0 ==> r@.map_values(|s: String| s@) == self.rows@[0]@.map_values(
                |e: (Seq<char>, crate::decode::ValueView)| e.0,
            ),
    {
        let mut r: Vec<String> = Vec::new();
        if self.rows.len() == 0 {
            return r;
        }
        let first = &self.rows[0];
        let mut i: usize = 0;
        while i < first.entries.len()
            invariant
                i <= first.entries@.len(),
                r@.len() == i,
                forall|a: int| 0 <= a < i ==> #[trigger] r@[a]@ == first.entries@[a].column@,
            decreases first.entries.len() - i,
        {
            r.push(first.entries[i].column.clone());
            i = i + 1;
        }
        assert(r@.map_values(|s: String| s@) =~= first@.map_values(
            |e: (Seq<char>, crate::decode::ValueView)| e.0,
        ));
        r
    }
}

/// A stage that can fail.
#[derive(PartialEq, Eq, Structural, Clone, Copy, Debug)]
pub enum Step {
    Translate,
    Execute,
}

/// Where a request stands.
#[derive(PartialEq, Eq, Structural, Clone, Copy, Debug)]
pub enum Stage {
    Received,
    Translating,
    Executing,
    Completed,
    Failed(Step),
}

/// The answer to a request: the question, the SQL run for it, the decoded
/// rows, the explanation and confidence text of the translation, and the
/// time each stage and the whole request took.
pub struct PipelineResponse {
    pub natural_query: String,
    pub sql_query: String,
    pub rows: Vec<DecodedRow>,
    pub row_count: usize,
    pub explanation: Option<String>,
    pub confidence_text: Option<String>,
    pub llm_processing_time_ms: u64,
    pub execution_time_ms: u64,
    pub total_time_ms: u64,
}

/// What the caller must do next.
pub enum Action {
    /// Ask the translator for SQL.
    CallTranslator { natural_query: String, model: String },
    /// Run this SQL text, verbatim.
    CallExecutor { sql: String },
    /// Send this answer; the request is done.
    Respond(PipelineResponse),
    /// Send this failure; the request is done.
    Fail(PipelineError),
}

/// One request moving through translation and execution.
pub struct Pipeline {
    pub stage: Stage,
    pub natural_query: String,
    pub model: String,
    pub sql_query: String,
    pub explanation: Option<String>,
    pub confidence_text: Option<String>,
    pub llm_processing_time_ms: u64,
    pub execution_time_ms: u64,
    /// When the request was received, in milliseconds on a monotonic clock.
    pub received_ms: u64,
    /// When translation started.
    pub translation_started_ms: u64,
    /// When translation ended.
    pub translated_ms: u64,
}

fn clone_text(o: &Option<String>) -> (r: Option<String>)
    ensures
        opt_view(r) == opt_view(*o),
{
    match o {
        Some(s) => Some(s.clone()),
        None => None,
    }
}

impl Pipeline {
    /// The recorded instants come in order, and the translation time is the
    /// span between the start and the end of translation.
    pub open spec fn timeline(&self) -> bool {
        &&& self.received_ms <= self.translation_started_ms <= self.translated_ms
        &&& self.llm_processing_time_ms == self.translated_ms - self.translation_started_ms
    }

    /// A request as received at `now_ms`: the question and the model it
    /// names, or the default model.
    pub fn new(natural_query: String, model: Option<String>, now_ms: u64) -> (r: Pipeline)
        ensures
            r.stage == Stage::Received,
            r.natural_query@ == natural_query@,
            r.model@ == match model {
                Some(m) => m@,
                None => "gpt-3.5-turbo"@,
            },
            r.received_ms == now_ms,
            r.timeline(),
    {
        let model = match model {
            Some(m) => m,
            None => default_model(),
        };
        Pipeline {
            stage: Stage::Received,
            natural_query,
            model,
            sql_query: String::new(),
            explanation: None,
            confidence_text: None,
            llm_processing_time_ms: 0,
            execution_time_ms: 0,
            received_ms: now_ms,
            translation_started_ms: now_ms,
            translated_ms: now_ms,
        }
    }

    /// Starts translation at `now_ms`: the translator gets the question and
    /// the model.
    pub fn start(&mut self, now_ms: u64) -> (a: Action)
        requires
            old(self).stage == Stage::Received,
            old(self).received_ms <= now_ms,
        ensures
            final(self).stage == Stage::Translating,
            final(self).natural_query@ == old(self).natural_query@,
            final(self).model@ == old(self).model@,
            final(self).received_ms == old(self).received_ms,
            final(self).translation_started_ms == now_ms,
            final(self).timeline(),
            a is CallTranslator,
            a->natural_query@ == old(self).natural_query@,
            a->model@ == old(self).model@,
    {
        self.stage = Stage::Translating;
        self.translation_started_ms = now_ms;
        self.translated_ms = now_ms;
        self.llm_processing_time_ms = 0;
        Action::CallTranslator {
            natural_query: self.natural_query.clone(),
            model: self.model.clone(),
        }
    }

    /// Takes the translator's outcome at `now_ms`, which fixes the time the
    /// translation took: on success the SQL goes to the executor verbatim; on
    /// failure the request fails in the translation stage and nothing is
    /// executed.
    pub fn on_translation(&mut self, outcome: Result<QueryResult, PipelineError>, now_ms: u64) -> (a: Action)
        requires
            old(self).stage == Stage::Translating,
            old(self).timeline(),
            old(self).translation_started_ms <= now_ms,
        ensures
            final(self).natural_query@ == old(self).natural_query@,
            final(self).model@ == old(self).model@,
            final(self).received_ms == old(self).received_ms,
            final(self).translation_started_ms == old(self).translation_started_ms,
            final(self).translated_ms == now_ms,
            final(self).llm_processing_time_ms == now_ms - old(self).translation_started_ms,
            final(self).timeline(),
            match outcome {
                Ok(q) => {
                    &&& final(self).stage == Stage::Executing
                    &&& final(self).sql_query@ == q.sql_query@
                    &&& opt_view(final(self).explanation) == opt_view(q.explanation)
                    &&& opt_view(final(self).confidence_text) == opt_view(q.confidence_text)
                    &&& a is CallExecutor
                    &&& a->sql@ == q.sql_query@
                },
                Err(e) => {
                    &&& final(self).stage == Stage::Failed(Step::Translate)
                    &&& a is Fail
                    &&& a->Fail_0@ == e@
                },
            },
    {
        self.llm_processing_time_ms = now_ms - self.translation_started_ms;
        self.translated_ms = now_ms;
        match outcome {
            Ok(q) => {
                let sql = q.sql_query.clone();
                self.sql_query = q.sql_query;
                self.explanation = q.explanation;
                self.confidence_text = q.confidence_text;
                self.stage = Stage::Executing;
                Action::CallExecutor { sql }
            },
            Err(e) => {
                self.stage = Stage::Failed(Step::Translate);
                Action::Fail(e)
            },
        }
    }

    /// Takes the executor's outcome at `now_ms`, which fixes the time the
    /// execution and the whole request took: on success the answer merges the
    /// translation, the rows and the timings; on failure the request fails in
    /// the execution stage. The stages run one after the other, so the total
    /// is at least the sum of the two stage times.
    pub fn on_execution(&mut self, outcome: Result<ExecutionOutcome, PipelineError>, now_ms: u64) -> (a: Action)
        requires
            old(self).stage == Stage::Executing,
            old(self).timeline(),
            old(self).translated_ms <= now_ms,
        ensures
            final(self).natural_query@ == old(self).natural_query@,
            final(self).sql_query@ == old(self).sql_query@,
            final(self).llm_processing_time_ms == old(self).llm_processing_time_ms,
            final(self).execution_time_ms == now_ms - old(self).translated_ms,
            match outcome {
                Ok(o) => {
                    &&& final(self).stage == Stage::Completed
                    &&& a is Respond
                    &&& {
                        let r = a->Respond_0;
                        &&& r.natural_query@ == old(self).natural_query@
                        &&& r.sql_query@ == old(self).sql_query@
                        &&& r.rows == o.rows
                        &&& r.row_count == o.row_count
                        &&& opt_view(r.explanation) == opt_view(old(self).explanation)
                        &&& opt_view(r.confidence_text) == opt_view(old(self).confidence_text)
                        &&& r.llm_processing_time_ms == old(self).llm_processing_time_ms
                        &&& r.execution_time_ms == now_ms - old(self).translated_ms
                        &&& r.total_time_ms == now_ms - old(self).received_ms
                        &&& r.total_time_ms >= r.llm_processing_time_ms + r.execution_time_ms
                    }
                },
                Err(e) => {
                    &&& final(self).stage == Stage::Failed(Step::Execute)
                    &&& a is Fail
                    &&& a->Fail_0@ == e@
                },
            },
    {
        self.execution_time_ms = now_ms - self.translated_ms;
        match outcome {
            Ok(o) => {
                self.stage = Stage::Completed;
                Action::Respond(
                    PipelineResponse {
                        natural_query: self.natural_query.clone(),
                        sql_query: self.sql_query.clone(),
                        rows: o.rows,
                        row_count: o.row_count,
                        explanation: clone_text(&self.explanation),
                        confidence_text: clone_text(&self.confidence_text),
                        llm_processing_time_ms: self.llm_processing_time_ms,
                        execution_time_ms: self.execution_time_ms,
                        total_time_ms: now_ms - self.received_ms,
                    },
                )
            },
            Err(e) => {
                self.stage = Stage::Failed(Step::Execute);
                Action::Fail(e)
            },
        }
    }
}

} // verus!
