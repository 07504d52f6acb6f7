//! Copies the result set of a query into a columnar file, batch by batch.
//!
//! Every source column gets a [`column_strategy::ColumnStrategy`]: how it is fetched, which
//! field of the output schema it becomes and how one batch of it is encoded. A
//! [`table_strategy::TableStrategy`] holds one strategy per column, sizes the fetch buffer and
//! decides, step by step, what the copy does next.

pub mod batch_size_limit;
pub mod column_strategy;
pub mod convert;
pub mod copy;
pub mod decimal;
pub mod error;
pub mod fetch_buffer;
pub mod parquet_buffer;
pub mod schema;
pub mod source;
pub mod table_strategy;
pub mod text;
pub mod values;
