//! Signing in to several ChatGPT subscriptions and spreading requests over them.
pub mod text;
pub mod text_laws;
pub mod id_map;
pub mod time;
pub mod json;
pub mod encoding;
pub mod credentials;
pub mod oauth;
pub mod accounts;
pub mod storage;
pub mod failure;
pub mod models;
pub mod requests;
pub mod state;
pub mod sign_in;
pub mod refresh;
pub mod failover;
pub mod failover_laws;
pub mod stream;
pub mod failure_laws;
pub mod usage;
pub mod usage_fetch;
pub mod usage_view;
pub mod usage_menu;
pub mod provider;
pub mod configuration;
pub mod sign_in_laws;
pub mod account_laws;
pub mod model_laws;
pub mod usage_laws;
pub mod view_laws;
pub mod compaction_laws;
pub mod clock_laws;
pub mod frame_laws;
