//! Natural-language-to-SQL pipeline: the schema description and the prompt
//! built from it, the parsing of the completion service's replies, the
//! decoding of result rows, and the request orchestrator.

pub mod text;
pub mod reply;
pub mod decode;
pub mod schema;
pub mod prompt;
pub mod pipeline;
pub mod visual;
