//! Verified core of a self-hosted application backend: SQL schema fragments,
//! list-query parsing, filter compilation and access-control helpers.

pub mod schema;
pub mod text;
pub mod schema_view;
pub mod statement;
pub mod sql_parse;
pub mod data_dir;
pub mod email;
pub mod num;
pub mod util;
pub mod listing;
pub mod qs;
pub mod records;
pub mod transaction;
pub mod geoip;
pub mod schema_registry;
pub mod scheduler;
pub mod logging;
pub mod server;
pub mod validate;
pub mod record_api;
pub mod list_records;
pub mod json_params;
pub mod keyed;
pub mod subscriptions;
pub mod query_api;
pub mod sql_functions;
pub mod migrations;
pub mod record_requests;
pub mod query_builder;
pub mod record_errors;
pub mod js_runtime;
pub mod request_params;
pub mod json_schema;
pub mod row_json;
pub mod files;
pub mod queue;
pub mod value_notifier;
