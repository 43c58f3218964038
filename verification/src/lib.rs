//! Browser-independent logic of the ACP web frontend: routing and URL
//! encoding, return-to links, session transcript state, account and
//! workspace page decisions, and the labels the pages show.

pub mod text;
pub mod routing;
pub mod return_to;
pub mod contracts;
pub mod lifecycle;
pub mod entries;
pub mod activity;
pub mod session_state;
pub mod session_actions;
pub mod time_format;
pub mod session_view;
pub mod icons;
pub mod accounts;
pub mod agent_profiles;
pub mod auth_page;
pub mod workspaces;
pub mod workspaces_page;
pub mod accounts_page;
