//! The decisions of the desktop client's views, apart from their widgets.
pub mod main_window;
pub mod composer;
pub mod identities;
