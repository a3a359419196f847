//! What each call of the user interface reports to the password manager:
//! the C strings and integers it passes, read into a [`Selection`].
use vstd::prelude::*;

use crate::model::{
    Entry, EntryView, MenuRequest, MenuRequestView, Selection, SelectionView, ServerSettings, ServerSettingsView,
    UserOption, UserOptionView,
};
use crate::number::{decimal_usize, index_from_c, parse_usize, to_count, to_index};
use crate::scala::{ScalaEntry, StringList};
use crate::text::{is_null_word, null_word, text_of, to_rust_string};
use vstd::utf8::valid_utf8;

verus! {

/// The text that stands in every server setting when the user interface sends a
/// list that is not made of exactly four texts.
pub open spec fn wrong_data() -> Seq<char> {
    "Wrong Java Data"@
}

/// The selection that a password and a number from the user interface make.
pub open spec fn password_selection(password: Seq<u8>, number: i32) -> SelectionView {
    SelectionView::ProvidedPassword(text_of(password), index_from_c(number))
}

/// The selection that a menu name alone makes.
pub open spec fn menu_selection(menu_name: Seq<u8>) -> SelectionView {
    SelectionView::GoTo(MenuRequestView { name: text_of(menu_name), number: None, text: None })
}

/// Whether the number argument of a menu can be read: it is the word for an
/// absent value, or a decimal `usize`.
pub open spec fn readable_menu_number(arg_num: Seq<u8>) -> bool {
    arg_num == null_word() || decimal_usize(arg_num) is Some
}

/// The selection that a menu name with its number and text arguments makes; an
/// argument that is the word `null` is absent.
pub open spec fn menu_with_args_selection(
    menu_name: Seq<u8>,
    arg_num: Seq<u8>,
    arg_str: Seq<u8>,
) -> SelectionView {
    SelectionView::GoTo(
        MenuRequestView {
            name: text_of(menu_name),
            number: if arg_num == null_word() {
                None
            } else {
                Some(decimal_usize(arg_num)->0 as int)
            },
            text: if arg_str == null_word() {
                None
            } else {
                Some(text_of(arg_str))
            },
        },
    )
}

/// The selection that an export or an import request makes: export when `export`
/// is positive, import otherwise.
pub open spec fn export_import_selection(
    path: Seq<u8>,
    export: u32,
    password: Seq<u8>,
    number: u32,
) -> SelectionView {
    if export > 0 {
        SelectionView::ExportTo(text_of(path))
    } else {
        SelectionView::ImportFrom(text_of(path), text_of(password), number as int)
    }
}

/// Whether a list of server settings can be read: when it has four texts, each is UTF-8.
pub open spec fn readable_settings(strings: Seq<Seq<u8>>) -> bool {
    strings.len() == 4 ==> forall|i: int| 0 <= i < 4 ==> valid_utf8(#[trigger] strings[i])
}

/// The server settings that a list of texts makes: the four texts in order when
/// there are exactly four, and otherwise [`wrong_data`] in every field.
pub open spec fn settings_of(strings: Seq<Seq<u8>>) -> ServerSettingsView {
    if strings.len() == 4 {
        ServerSettingsView {
            server_url: text_of(strings[0]),
            username: text_of(strings[1]),
            password: text_of(strings[2]),
            certificate: text_of(strings[3]),
        }
    } else {
        ServerSettingsView {
            server_url: wrong_data(),
            username: wrong_data(),
            password: wrong_data(),
            certificate: wrong_data(),
        }
    }
}

/// The C string contents of the texts of a list.
pub open spec fn contents(list: &StringList) -> Seq<Seq<u8>> {
    list.strings@.map_values(|s: Vec<u8>| s@)
}

/// The user gave the password and the number that open the passwords.
pub fn set_password(password: &[u8], number: i32) -> (r: Selection)
    requires
        valid_utf8(password@),
    ensures
        r@ == password_selection(password@, number),
        number >= 0 ==> r@ == SelectionView::ProvidedPassword(text_of(password@), number as int),
        number < 0 ==> r@ == SelectionView::ProvidedPassword(
            text_of(password@),
            number + usize::MAX + 1,
        ),
{
    Selection::ProvidedPassword(to_rust_string(password), to_index(number))
}

/// The user chose a menu that takes no argument.
pub fn go_to_menu(menu_name: &[u8]) -> (r: Selection)
    requires
        valid_utf8(menu_name@),
    ensures
        r@ == menu_selection(menu_name@),
        r@ == SelectionView::GoTo(
            MenuRequestView { name: text_of(menu_name@), number: None, text: None },
        ),
{
    Selection::GoTo(MenuRequest { name: to_rust_string(menu_name), number: None, text: None })
}

/// The user chose a menu with a number and a text argument, each of which may be
/// the word `null` for an absent value.
pub fn go_to_menu_plus_arg(menu_name: &[u8], arg_num: &[u8], arg_str: &[u8]) -> (r: Selection)
    requires
        valid_utf8(menu_name@),
        valid_utf8(arg_str@),
        readable_menu_number(arg_num@),
    ensures
        r@ == menu_with_args_selection(menu_name@, arg_num@, arg_str@),
        r@ is GoTo,
        r@ matches SelectionView::GoTo(m) ==> {
            &&& m.name == text_of(menu_name@)
            &&& arg_num@ == null_word() ==> m.number is None
            &&& arg_num@ != null_word() ==> m.number == Some(decimal_usize(arg_num@)->0 as int)
            &&& arg_str@ == null_word() ==> m.text is None
            &&& arg_str@ != null_word() ==> m.text == Some(text_of(arg_str@))
        },
{
    let name = to_rust_string(menu_name);
    let num_opt = if is_null_word(arg_num) {
        None
    } else {
        match parse_usize(arg_num) {
            Some(num) => Some(num),
            None => {
                assert(false);
                None
            },
        }
    };
    let str_opt = if is_null_word(arg_str) {
        None
    } else {
        Some(to_rust_string(arg_str))
    };
    Selection::GoTo(MenuRequest { name, number: num_opt, text: str_opt })
}

/// Reads the entry that the user interface returns.
fn entry_from(java_entry: &ScalaEntry) -> (r: Entry)
    requires
        java_entry@.readable(),
    ensures
        r@ == java_entry@.entry(),
        r@ == (EntryView {
            name: text_of(java_entry.name@),
            user: text_of(java_entry.user@),
            pass: text_of(java_entry.pass@),
            desc: text_of(java_entry.desc@),
        }),
{
    Entry {
        name: to_rust_string(java_entry.name.as_slice()),
        user: to_rust_string(java_entry.user.as_slice()),
        pass: to_rust_string(java_entry.pass.as_slice()),
        desc: to_rust_string(java_entry.desc.as_slice()),
    }
}

/// The user added a new entry.
pub fn add_entry(java_entry: &ScalaEntry) -> (r: Selection)
    requires
        java_entry@.readable(),
    ensures
        r@ == SelectionView::NewEntry(java_entry@.entry()),
        r@ == SelectionView::NewEntry(
            EntryView {
                name: text_of(java_entry.name@),
                user: text_of(java_entry.user@),
                pass: text_of(java_entry.pass@),
                desc: text_of(java_entry.desc@),
            },
        ),
{
    Selection::NewEntry(entry_from(java_entry))
}

/// The user changed the entry at the index.
pub fn replace_entry(java_entry: &ScalaEntry, index: i32) -> (r: Selection)
    requires
        java_entry@.readable(),
    ensures
        r@ == SelectionView::ReplaceEntry(index_from_c(index), java_entry@.entry()),
        r@ matches SelectionView::ReplaceEntry(i, e) && e == (EntryView {
            name: text_of(java_entry.name@),
            user: text_of(java_entry.user@),
            pass: text_of(java_entry.pass@),
            desc: text_of(java_entry.desc@),
        }) && (index >= 0 ==> i == index as int) && (index < 0 ==> i == index + usize::MAX + 1),
{
    Selection::ReplaceEntry(to_index(index), entry_from(java_entry))
}

/// The user deleted the entry at the index.
pub fn delete_entry(index: i32) -> (r: Selection)
    ensures
        r@ == SelectionView::DeleteEntry(index_from_c(index)),
        index >= 0 ==> r@ == SelectionView::DeleteEntry(index as int),
        index < 0 ==> r@ == SelectionView::DeleteEntry(index + usize::MAX + 1),
{
    Selection::DeleteEntry(to_index(index))
}

/// The user exports the entries to a path (when `export` is positive), or imports
/// them from a file with its password and number; the password is read only for
/// an import.
pub fn export_import(path: &[u8], export: u32, password: &[u8], number: u32) -> (r: Selection)
    requires
        valid_utf8(path@),
        export == 0 ==> valid_utf8(password@),
    ensures
        r@ == export_import_selection(path@, export, password@, number),
        export > 0 ==> r@ == SelectionView::ExportTo(text_of(path@)),
        export == 0 ==> r@ == SelectionView::ImportFrom(
            text_of(path@),
            text_of(password@),
            number as int,
        ),
{
    if export > 0 {
        Selection::ExportTo(to_rust_string(path))
    } else {
        Selection::ImportFrom(to_rust_string(path), to_rust_string(password), to_count(number))
    }
}

/// The user chose one of the options offered.
pub fn user_option_selected(label: &[u8], value: &[u8], short_label: &[u8]) -> (r: Selection)
    requires
        valid_utf8(label@),
        valid_utf8(value@),
        valid_utf8(short_label@),
    ensures
        r@ == SelectionView::UserOption(
            UserOptionView {
                label: text_of(label@),
                value: text_of(value@),
                short_label: text_of(short_label@),
            },
        ),
{
    Selection::UserOption(
        UserOption {
            label: to_rust_string(label),
            value: to_rust_string(value),
            short_label: to_rust_string(short_label),
        },
    )
}

/// The user saved the server settings: a list of the server URL, the user name,
/// the password and the certificate.
pub fn set_configuration(string_list: &StringList) -> (r: Selection)
    requires
        readable_settings(contents(string_list)),
    ensures
        r@ == SelectionView::UpdateConfiguration(settings_of(contents(string_list))),
        string_list.strings@.len() == 4 ==> r@ == SelectionView::UpdateConfiguration(
            ServerSettingsView {
                server_url: text_of(string_list.strings@[0]@),
                username: text_of(string_list.strings@[1]@),
                password: text_of(string_list.strings@[2]@),
                certificate: text_of(string_list.strings@[3]@),
            },
        ),
        string_list.strings@.len() != 4 ==> r@ == SelectionView::UpdateConfiguration(
            ServerSettingsView {
                server_url: "Wrong Java Data"@,
                username: "Wrong Java Data"@,
                password: "Wrong Java Data"@,
                certificate: "Wrong Java Data"@,
            },
        ),
{
    let ghost c = contents(string_list);
    let settings = if string_list.strings.len() == 4 {
        assert(valid_utf8(c[0]) && valid_utf8(c[1]) && valid_utf8(c[2]) && valid_utf8(c[3]));
        ServerSettings {
            server_url: to_rust_string(string_list.strings[0].as_slice()),
            username: to_rust_string(string_list.strings[1].as_slice()),
            password: to_rust_string(string_list.strings[2].as_slice()),
            certificate: to_rust_string(string_list.strings[3].as_slice()),
        }
    } else {
        ServerSettings {
            server_url: "Wrong Java Data".to_owned(),
            username: "Wrong Java Data".to_owned(),
            password: "Wrong Java Data".to_owned(),
            certificate: "Wrong Java Data".to_owned(),
        }
    };
    Selection::UpdateConfiguration(settings)
}

} // verus!
