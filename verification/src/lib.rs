//! Verified core of reef, a terminal interface for git workspaces.
//!
//! The crate holds the decisions of the program as plain functions and state
//! machines: the wire protocol between the client and its agent, the parsing
//! of git output, the file tree and the preview classifier, in-panel search,
//! and the application state with the effects it asks its host to perform.
pub mod actions;
pub mod agent;
pub mod app;
pub mod app_laws;
pub mod backend;
pub mod base64;
pub mod cli;
pub mod convert;
pub mod editor;
pub mod effects;
pub mod file_tree;
pub mod files_drag;
pub mod files_laws;
pub mod files_menu;
pub mod files_pane;
pub mod files_paste;
pub mod focus_laws;
pub mod git;
pub mod git_activate;
pub mod git_command;
pub mod git_flows;
pub mod git_focus;
pub mod git_laws;
pub mod git_pane;
pub mod git_pane_laws;
pub mod git_stash;
pub mod global_search;
pub mod graph;
pub mod graph_laws;
pub mod layout;
pub mod loads;
pub mod model_laws;
pub mod ops;
pub mod order;
pub mod panel_search;
pub mod paths;
pub mod place;
pub mod preview;
pub mod preview_laws;
pub mod preview_pane;
pub mod proto;
pub mod refs;
pub mod remote;
pub mod remote_files;
pub mod remote_laws;
pub mod repo_catalog;
pub mod screen_laws;
pub mod search;
pub mod search_laws;
pub mod size;
pub mod stash;
pub mod stash_laws;
pub mod strmap;
pub mod text;
pub mod text_laws;
pub mod tick;
pub mod worker;
