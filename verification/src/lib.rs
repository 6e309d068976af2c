//! DevUtils core library: the state, rules and text handling behind the
//! developer toolkit, with their behaviour stated as Verus contracts.

pub mod text;
pub mod github;
pub mod history;
pub mod live_reload;
pub mod atomic_edit;
pub mod merge_resolver;
pub mod enterprise;
pub mod corrections;
pub mod cron;
pub mod advanced;
pub mod context;
pub mod ranking;
pub mod checkpoints;
pub mod hooks;
pub mod commands;
pub mod debugger;
pub mod dev_loop;
pub mod mcp;
pub mod mcp_catalog;
pub mod auth;
pub mod config;
pub mod agent;
pub mod multiagent;
pub mod intent;
pub mod intelligence;
pub mod chat;
pub mod incident;
pub mod error;
pub mod fast_render;
pub mod ai;
pub mod model_router;
pub mod agent_state;
pub mod ci_bridge;
pub mod browser;
pub mod offline;
pub mod daemon;
pub mod docker;
pub mod git_session;
pub mod integrations;
pub mod git;
pub mod all_utils;
pub mod local_models;
pub mod git_ui;
pub mod diff_view;
pub mod picker;
pub mod marketplace;
pub mod toolchain;
