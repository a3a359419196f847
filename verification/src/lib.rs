//! The verified core of the bridge between the rust-keylock password manager and
//! its user interface: it reads what the user interface reports into selections,
//! and prepares entries, options and lists as C string contents for it.
pub mod commands;
pub mod laws;
pub mod model;
pub mod number;
pub mod scala;
pub mod text;

pub use commands::{
    add_entry, delete_entry, export_import, go_to_menu, go_to_menu_plus_arg, replace_entry,
    set_configuration, set_password, user_option_selected,
};
pub use model::{Entry, MenuRequest, Selection, ServerSettings, UserOption};
pub use number::parse_usize;
pub use scala::{ScalaEntriesSet, ScalaEntry, ScalaUserOption, ScalaUserOptionsSet, StringList};
pub use text::{is_c_string_text, is_null_word, is_valid_text, to_java_string, to_rust_string};
