//! A client for a columnar analytical database's HTTP interface, and the
//! dialect hooks that render its SQL.

mod client;
mod error;
mod outside;
mod query_builder;

pub use client::{
    first_row, is_success, query_body, request_url, settle, DatabaseError, DeserializeError,
    Reply, Response,
};
pub use error::Error;
pub use query_builder::{ClickHouseQueryBuilder, DistinctClause, VendorOperator};
