//! The records handed to the user interface, each text as the bytes of a C
//! string (without the terminating NUL), and the lists with their 32-bit counts.
use vstd::prelude::*;

use crate::model::{Entry, EntryView, UserOption, UserOptionView};
use crate::number::{length_for_c, to_c_length};
use crate::text::{c_bytes, is_c_text, null_bytes, null_word, text_of, to_java_string};
use vstd::utf8::valid_utf8;

verus! {

/// Whether bytes can be the content of a C string: they hold no NUL byte.
pub open spec fn is_c_content(bytes: Seq<u8>) -> bool {
    !bytes.contains(0u8)
}

/// An entry as the user interface receives and returns it.
#[derive(Clone, Debug, PartialEq, Eq)]
pub struct ScalaEntry {
    pub name: Vec<u8>,
    pub user: Vec<u8>,
    pub pass: Vec<u8>,
    pub desc: Vec<u8>,
}

/// The C string contents of a [`ScalaEntry`].
pub struct ScalaEntryView {
    pub name: Seq<u8>,
    pub user: Seq<u8>,
    pub pass: Seq<u8>,
    pub desc: Seq<u8>,
}

impl View for ScalaEntry {
    type V = ScalaEntryView;

    open spec fn view(&self) -> ScalaEntryView {
        ScalaEntryView { name: self.name@, user: self.user@, pass: self.pass@, desc: self.desc@ }
    }
}

impl ScalaEntryView {
    /// Every field can be the content of a C string.
    pub open spec fn wf(self) -> bool {
        &&& is_c_content(self.name)
        &&& is_c_content(self.user)
        &&& is_c_content(self.pass)
        &&& is_c_content(self.desc)
    }

    /// Every field can be read as text.
    pub open spec fn readable(self) -> bool {
        &&& valid_utf8(self.name)
        &&& valid_utf8(self.user)
        &&& valid_utf8(self.pass)
        &&& valid_utf8(self.desc)
    }

    /// The entry that the fields stand for.
    pub open spec fn entry(self) -> EntryView {
        EntryView {
            name: text_of(self.name),
            user: text_of(self.user),
            pass: text_of(self.pass),
            desc: text_of(self.desc),
        }
    }
}

/// The record that carries an entry to the user interface.
pub open spec fn scala_entry_of(e: EntryView) -> ScalaEntryView {
    ScalaEntryView {
        name: c_bytes(e.name),
        user: c_bytes(e.user),
        pass: c_bytes(e.pass),
        desc: c_bytes(e.desc),
    }
}

/// The record whose every field is the word that stands for an absent value.
pub open spec fn null_scala_entry() -> ScalaEntryView {
    ScalaEntryView { name: null_word(), user: null_word(), pass: null_word(), desc: null_word() }
}

impl ScalaEntry {
    /// The record that carries the entry to the user interface.
    pub fn new(entry: &Entry) -> (r: ScalaEntry)
        requires
            entry@.transferable(),
        ensures
            r@ == scala_entry_of(entry@),
            r@.wf(),
            r.name@ == c_bytes(entry.name@),
            r.user@ == c_bytes(entry.user@),
            r.pass@ == c_bytes(entry.pass@),
            r.desc@ == c_bytes(entry.desc@),
    {
        ScalaEntry {
            name: to_java_string(entry.name.as_str()),
            user: to_java_string(entry.user.as_str()),
            pass: to_java_string(entry.pass.as_str()),
            desc: to_java_string(entry.desc.as_str()),
        }
    }

    /// A record whose fields are all empty.
    pub fn empty() -> (r: ScalaEntry)
        ensures
            r@.name.len() == 0,
            r@.user.len() == 0,
            r@.pass.len() == 0,
            r@.desc.len() == 0,
    {
        ScalaEntry { name: Vec::new(), user: Vec::new(), pass: Vec::new(), desc: Vec::new() }
    }

    /// A record whose fields all say that the value is absent.
    pub fn with_nulls() -> (r: ScalaEntry)
        ensures
            r@ == null_scala_entry(),
            r.name@ == null_word() && r.user@ == null_word() && r.pass@ == null_word()
                && r.desc@ == null_word(),
    {
        ScalaEntry { name: null_bytes(), user: null_bytes(), pass: null_bytes(), desc: null_bytes() }
    }

    /// Whether every field can be read as text.
    pub fn is_readable(&self) -> (r: bool)
        ensures
            r == self@.readable(),
    {
        crate::text::is_valid_text(self.name.as_slice()) && crate::text::is_valid_text(
            self.user.as_slice(),
        ) && crate::text::is_valid_text(self.pass.as_slice())
            && crate::text::is_valid_text(self.desc.as_slice())
    }
}

/// A user option as the user interface receives it.
#[derive(Clone, Debug, PartialEq, Eq)]
pub struct ScalaUserOption {
    pub label: Vec<u8>,
    pub value: Vec<u8>,
    pub short_label: Vec<u8>,
}

/// The C string contents of a [`ScalaUserOption`].
pub struct ScalaUserOptionView {
    pub label: Seq<u8>,
    pub value: Seq<u8>,
    pub short_label: Seq<u8>,
}

impl View for ScalaUserOption {
    type V = ScalaUserOptionView;

    open spec fn view(&self) -> ScalaUserOptionView {
        ScalaUserOptionView {
            label: self.label@,
            value: self.value@,
            short_label: self.short_label@,
        }
    }
}

/// The record that carries a user option to the user interface.
pub open spec fn scala_user_option_of(o: UserOptionView) -> ScalaUserOptionView {
    ScalaUserOptionView {
        label: c_bytes(o.label),
        value: c_bytes(o.value),
        short_label: c_bytes(o.short_label),
    }
}

/// The option record whose every field says that the value is absent.
pub open spec fn null_scala_user_option() -> ScalaUserOptionView {
    ScalaUserOptionView { label: null_word(), value: null_word(), short_label: null_word() }
}

impl ScalaUserOption {
    /// The record that carries the option to the user interface.
    pub fn new(user_option: &UserOption) -> (r: ScalaUserOption)
        requires
            user_option@.transferable(),
        ensures
            r@ == scala_user_option_of(user_option@),
            r.label@ == c_bytes(user_option.label@),
            r.value@ == c_bytes(user_option.value@),
            r.short_label@ == c_bytes(user_option.short_label@),
            !r@.label.contains(0u8),
            !r@.value.contains(0u8),
            !r@.short_label.contains(0u8),
    {
        ScalaUserOption {
            label: to_java_string(user_option.label.as_str()),
            value: to_java_string(user_option.value.as_str()),
            short_label: to_java_string(user_option.short_label.as_str()),
        }
    }

    /// A record whose fields all say that the value is absent.
    pub fn with_nulls() -> (r: ScalaUserOption)
        ensures
            r@ == null_scala_user_option(),
    {
        ScalaUserOption { label: null_bytes(), value: null_bytes(), short_label: null_bytes() }
    }
}

/// The entries handed to the user interface, with their count.
#[derive(Clone, Debug, PartialEq, Eq)]
pub struct ScalaEntriesSet {
    pub entries: Vec<ScalaEntry>,
    pub number_of_entries: i32,
}

impl ScalaEntriesSet {
    /// The records of the entries, in order, and their count.
    pub fn from(entries: &[Entry]) -> (r: ScalaEntriesSet)
        requires
            forall|i: int| 0 <= i < entries@.len() ==> (#[trigger] entries@[i])@.transferable(),
        ensures
            r.entries@.len() == entries@.len(),
            forall|i: int|
                0 <= i < entries@.len() ==> (#[trigger] r.entries@[i])@ == scala_entry_of(
                    entries@[i]@,
                ),
            r.number_of_entries == length_for_c(entries@.len() as usize),
    {
        let mut out: Vec<ScalaEntry> = Vec::new();
        let n = entries.len();
        let mut i: usize = 0;
        while i < n
            invariant
                n == entries@.len(),
                0 <= i <= n,
                out@.len() == i,
                forall|k: int| 0 <= k < entries@.len() ==> (#[trigger] entries@[k])@.transferable(),
                forall|k: int| 0 <= k < i ==> (#[trigger] out@[k])@ == scala_entry_of(entries@[k]@),
            decreases n - i,
        {
            out.push(ScalaEntry::new(&entries[i]));
            i = i + 1;
        }
        let count = to_c_length(out.len());
        ScalaEntriesSet { entries: out, number_of_entries: count }
    }

    /// A list of one record whose fields all say that the value is absent.
    pub fn with_nulls() -> (r: ScalaEntriesSet)
        ensures
            r.entries@.len() == 1,
            r.entries@[0]@ == null_scala_entry(),
            r.number_of_entries == 1,
    {
        let mut dummy: Vec<ScalaEntry> = Vec::new();
        dummy.push(ScalaEntry::with_nulls());
        ScalaEntriesSet { entries: dummy, number_of_entries: 1 }
    }
}

/// The user options handed to the user interface, with their count.
#[derive(Clone, Debug, PartialEq, Eq)]
pub struct ScalaUserOptionsSet {
    pub options: Vec<ScalaUserOption>,
    pub number_of_options: i32,
}

impl ScalaUserOptionsSet {
    /// The records of the options, in order, and their count.
    pub fn from(user_options: &[UserOption]) -> (r: ScalaUserOptionsSet)
        requires
            forall|i: int|
                0 <= i < user_options@.len() ==> (#[trigger] user_options@[i])@.transferable(),
        ensures
            r.options@.len() == user_options@.len(),
            forall|i: int|
                0 <= i < user_options@.len() ==> (#[trigger] r.options@[i])@
                    == scala_user_option_of(user_options@[i]@),
            r.number_of_options == length_for_c(user_options@.len() as usize),
    {
        let mut out: Vec<ScalaUserOption> = Vec::new();
        let n = user_options.len();
        let mut i: usize = 0;
        while i < n
            invariant
                n == user_options@.len(),
                0 <= i <= n,
                out@.len() == i,
                forall|k: int|
                    0 <= k < user_options@.len() ==> (#[trigger] user_options@[k])@.transferable(),
                forall|k: int|
                    0 <= k < i ==> (#[trigger] out@[k])@ == scala_user_option_of(
                        user_options@[k]@,
                    ),
            decreases n - i,
        {
            out.push(ScalaUserOption::new(&user_options[i]));
            i = i + 1;
        }
        let count = to_c_length(out.len());
        ScalaUserOptionsSet { options: out, number_of_options: count }
    }

    /// A list of one option record whose fields all say that the value is absent.
    pub fn with_nulls() -> (r: ScalaUserOptionsSet)
        ensures
            r.options@.len() == 1,
            r.options@[0]@ == null_scala_user_option(),
            r.number_of_options == 1,
    {
        let mut dummy: Vec<ScalaUserOption> = Vec::new();
        dummy.push(ScalaUserOption::with_nulls());
        ScalaUserOptionsSet { options: dummy, number_of_options: 1 }
    }
}

/// A list of texts exchanged with the user interface, with its count.
#[derive(Clone, Debug, PartialEq, Eq)]
pub struct StringList {
    pub strings: Vec<Vec<u8>>,
    pub number_of_strings: i32,
}

impl StringList {
    /// The C string contents of the texts, in order, and their count.
    pub fn from(strings: Vec<String>) -> (r: StringList)
        requires
            forall|i: int| 0 <= i < strings@.len() ==> is_c_text(#[trigger] strings@[i]@),
        ensures
            r.strings@.len() == strings@.len(),
            forall|i: int|
                0 <= i < strings@.len() ==> (#[trigger] r.strings@[i])@ == c_bytes(strings@[i]@),
            r.number_of_strings == length_for_c(strings@.len() as usize),
    {
        let num_entries = strings.len();
        let mut out: Vec<Vec<u8>> = Vec::new();
        let mut i: usize = 0;
        while i < num_entries
            invariant
                num_entries == strings@.len(),
                0 <= i <= num_entries,
                out@.len() == i,
                forall|k: int| 0 <= k < strings@.len() ==> is_c_text(#[trigger] strings@[k]@),
                forall|k: int| 0 <= k < i ==> (#[trigger] out@[k])@ == c_bytes(strings@[k]@),
            decreases num_entries - i,
        {
            out.push(to_java_string(strings[i].as_str()));
            i = i + 1;
        }
        StringList { strings: out, number_of_strings: to_c_length(num_entries) }
    }
}

} // verus!
