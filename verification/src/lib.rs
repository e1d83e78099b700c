//! Verified core of the debtmap terminal user interface: navigation state,
//! key classification, list selection, searching, filtering, sorting and
//! grouping of technical-debt items, and the text formatting used by the views.

pub mod detail_page;
pub mod ordering;
pub mod text;
pub mod item;
pub mod filter;
pub mod sort;
pub mod search;
pub mod query_state;
pub mod grouping;
pub mod view_mode;
pub mod nav_state;
pub mod keys;
pub mod list_actions;
pub mod detail_actions;
pub mod list_state;
pub mod page_availability;
pub mod results_app;
pub mod navigation;
pub mod nav_actions;
pub mod animation;
pub mod layout;
pub mod pipeline;
pub mod renderer;
pub mod context;
pub mod overview;
pub mod page_text;
pub mod editor;
pub mod option_ext;
pub mod validation;
pub mod language_parser;
pub mod parameter_analysis;
pub mod text_extraction;
pub mod actions;
pub mod data_flow;
pub mod dependencies;
pub mod git_context;
pub mod patterns;
pub mod list_view;
pub mod page_extract;
pub mod wrapping;
pub mod help;
pub mod detail_shortcuts;
pub mod dsm;
pub mod project;
pub mod context_providers;
