//! Navigation actions: each validates the transition, checks its guard, and
//! updates the navigation state on success. They are defined beside the
//! navigation state and offered here under their own module as well.
pub use crate::nav_state::{
    available_actions, navigate_back, navigate_detail_page, navigate_to_detail, navigate_to_dsm,
    navigate_to_filter_menu, navigate_to_help, navigate_to_search, navigate_to_sort_menu,
};
