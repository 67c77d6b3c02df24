pub(crate) mod clock;
pub mod commands;
pub mod demo;
pub mod http_client;
pub mod integration;
pub mod mock_data;
pub mod search;
pub mod text;
pub mod types;
