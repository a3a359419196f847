//! The values that pass between the user interface and the password manager:
//! entries, user options, menu requests, server settings, and the selections
//! that the user interface reports.
use vstd::prelude::*;

use crate::text::is_c_text;

verus! {

/// A password entry as the user interface shows and edits it.
#[derive(Clone, Debug, PartialEq, Eq)]
pub struct Entry {
    pub name: String,
    pub user: String,
    pub pass: String,
    pub desc: String,
}

/// The texts of an [`Entry`].
pub struct EntryView {
    pub name: Seq<char>,
    pub user: Seq<char>,
    pub pass: Seq<char>,
    pub desc: Seq<char>,
}

impl EntryView {
    /// Whether every text of the entry can travel to the user interface as a C string.
    pub open spec fn transferable(self) -> bool {
        &&& is_c_text(self.name)
        &&& is_c_text(self.user)
        &&& is_c_text(self.pass)
        &&& is_c_text(self.desc)
    }
}

impl View for Entry {
    type V = EntryView;

    open spec fn view(&self) -> EntryView {
        EntryView { name: self.name@, user: self.user@, pass: self.pass@, desc: self.desc@ }
    }
}

impl Entry {
    /// Whether every text of the entry can travel to the user interface as a C string.
    pub fn is_transferable(&self) -> (r: bool)
        ensures
            r == self@.transferable(),
    {
        crate::text::is_c_string_text(self.name.as_str()) && crate::text::is_c_string_text(
            self.user.as_str(),
        ) && crate::text::is_c_string_text(self.pass.as_str())
            && crate::text::is_c_string_text(self.desc.as_str())
    }
}

/// An option offered to the user: a label, the value in its text form
/// (such as `String(Ok)` or `Number(3)`), and a short label.
#[derive(Clone, Debug, PartialEq, Eq)]
pub struct UserOption {
    pub label: String,
    pub value: String,
    pub short_label: String,
}

/// The texts of a [`UserOption`].
pub struct UserOptionView {
    pub label: Seq<char>,
    pub value: Seq<char>,
    pub short_label: Seq<char>,
}

impl UserOptionView {
    /// Whether every text of the option can travel to the user interface as a C string.
    pub open spec fn transferable(self) -> bool {
        &&& is_c_text(self.label)
        &&& is_c_text(self.value)
        &&& is_c_text(self.short_label)
    }
}

impl View for UserOption {
    type V = UserOptionView;

    open spec fn view(&self) -> UserOptionView {
        UserOptionView {
            label: self.label@,
            value: self.value@,
            short_label: self.short_label@,
        }
    }
}

impl UserOption {
    /// Whether every text of the option can travel to the user interface as a C string.
    pub fn is_transferable(&self) -> (r: bool)
        ensures
            r == self@.transferable(),
    {
        crate::text::is_c_string_text(self.label.as_str()) && crate::text::is_c_string_text(
            self.value.as_str(),
        ) && crate::text::is_c_string_text(self.short_label.as_str())
    }
}

/// A request to go to a menu: its name, and the number and the text that
/// some menus take.
#[derive(Clone, Debug, PartialEq, Eq)]
pub struct MenuRequest {
    pub name: String,
    pub number: Option<usize>,
    pub text: Option<String>,
}

/// The content of a [`MenuRequest`].
pub struct MenuRequestView {
    pub name: Seq<char>,
    pub number: Option<int>,
    pub text: Option<Seq<char>>,
}

impl View for MenuRequest {
    type V = MenuRequestView;

    open spec fn view(&self) -> MenuRequestView {
        MenuRequestView {
            name: self.name@,
            number: match self.number {
                Some(n) => Some(n as int),
                None => None,
            },
            text: match &self.text {
                Some(t) => Some(t@),
                None => None,
            },
        }
    }
}

/// The settings of the Nextcloud server that the passwords are synchronized with.
#[derive(Clone, Debug, PartialEq, Eq)]
pub struct ServerSettings {
    pub server_url: String,
    pub username: String,
    pub password: String,
    pub certificate: String,
}

/// The texts of [`ServerSettings`].
pub struct ServerSettingsView {
    pub server_url: Seq<char>,
    pub username: Seq<char>,
    pub password: Seq<char>,
    pub certificate: Seq<char>,
}

impl View for ServerSettings {
    type V = ServerSettingsView;

    open spec fn view(&self) -> ServerSettingsView {
        ServerSettingsView {
            server_url: self.server_url@,
            username: self.username@,
            password: self.password@,
            certificate: self.certificate@,
        }
    }
}

/// What the user selected in the user interface, reported to the password manager.
#[derive(Clone, Debug, PartialEq, Eq)]
pub enum Selection {
    /// A new entry to add.
    NewEntry(Entry),
    /// An entry that replaces the one at the index.
    ReplaceEntry(usize, Entry),
    /// The index of the entry to delete.
    DeleteEntry(usize),
    /// The menu to go to.
    GoTo(MenuRequest),
    /// The password and the number that open the passwords.
    ProvidedPassword(String, usize),
    /// The path to export the entries to.
    ExportTo(String),
    /// The path, password and number of a file to import entries from.
    ImportFrom(String, String, usize),
    /// The option that the user chose.
    UserOption(UserOption),
    /// New server settings.
    UpdateConfiguration(ServerSettings),
}

/// The content of a [`Selection`].
pub enum SelectionView {
    NewEntry(EntryView),
    ReplaceEntry(int, EntryView),
    DeleteEntry(int),
    GoTo(MenuRequestView),
    ProvidedPassword(Seq<char>, int),
    ExportTo(Seq<char>),
    ImportFrom(Seq<char>, Seq<char>, int),
    UserOption(UserOptionView),
    UpdateConfiguration(ServerSettingsView),
}

impl View for Selection {
    type V = SelectionView;

    open spec fn view(&self) -> SelectionView {
        match self {
            Selection::NewEntry(e) => SelectionView::NewEntry(e@),
            Selection::ReplaceEntry(i, e) => SelectionView::ReplaceEntry(*i as int, e@),
            Selection::DeleteEntry(i) => SelectionView::DeleteEntry(*i as int),
            Selection::GoTo(m) => SelectionView::GoTo(m@),
            Selection::ProvidedPassword(p, n) => SelectionView::ProvidedPassword(p@, *n as int),
            Selection::ExportTo(p) => SelectionView::ExportTo(p@),
            Selection::ImportFrom(p, w, n) => SelectionView::ImportFrom(p@, w@, *n as int),
            Selection::UserOption(o) => SelectionView::UserOption(o@),
            Selection::UpdateConfiguration(s) => SelectionView::UpdateConfiguration(s@),
        }
    }
}

} // verus!
