//! A fluent composer of SQL statement text with typed value encoding and a
//! denylist check on identifiers and literals.
pub mod json_ops;
pub mod keyword;
pub mod laws;
pub mod number;
pub mod query;
pub mod sanitize;
pub mod schema;
pub mod text;
pub mod value;

pub use keyword::{BracketType, ForeignKeyActions, KeywordList, QueryType, Timezone};
pub use number::Decimal;
pub use query::{QueryBuilder, QueryError};
pub use schema::{ForeignKey, ForeignKeyItem, SchemaBuilder, TableBuilder};
pub use value::{JsonValue, ValueType};
