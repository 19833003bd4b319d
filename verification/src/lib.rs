//! The logic of a travel-diary web application: reading and writing the
//! page address, narrowing the SQL queries by the chosen filters, deciding what
//! each page shows, shaping query results and grouping settings. The browser,
//! the database engine and the template engine stay outside this library.
pub mod text;
pub mod text_map;
pub mod sql_filter;
pub mod query_params;
pub mod resources;
pub mod pages;
pub mod results;
pub mod settings;
pub mod db_load;
pub mod selection;
pub mod overview;
