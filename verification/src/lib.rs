//! Keyboard layout metadata from XKB rule documents.
//!
//! An XKB rule document lists the keyboard layouts that a system offers, each
//! with its regional variants. This crate holds the typed tree of such a
//! document, the accessors over it, and the rules by which a base catalog and
//! an extras catalog become one.

pub mod load;
pub mod merge;
pub mod schema;

pub use load::{
    all_keyboard_layouts, base_rules_path, extra_rules_path, rules_path, LoadError, X11_BASE_RULES,
    X11_BASE_RULES_XML, X11_EXTRAS_RULES, X11_EXTRA_RULES_XML,
};
pub use merge::{concat_layout_lists, merge_rules};
pub use schema::{ConfigItem, KeyboardLayout, KeyboardLayouts, KeyboardVariant, LayoutList, VariantList};
