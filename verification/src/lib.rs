//! Verified core of the Hummingbird music player's user interface: navigation history,
//! table column layout, dropdown selection, the fuzzy finder of the palettes, queue building,
//! album-art decoding, menus and key bindings, and the small decisions and text formats that
//! the views are built from.

pub mod assets;
pub mod availability;
pub mod collection;
pub mod column_map;
pub mod command_palette;
pub mod context_menus;
pub mod dropdown;
pub mod finder;
pub mod global_actions;
pub mod grid;
pub mod images;
pub mod lastfm;
pub mod likes;
pub mod menu_bar;
pub mod menus;
pub mod missing_folder;
pub mod models;
pub mod navigation;
pub mod playback;
pub mod scan;
pub mod search;
pub mod sidebar;
pub mod startup;
pub mod table;
pub mod text;
pub mod track_listing;
