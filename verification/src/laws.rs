//! Properties that relate what the library hands to the user interface with
//! what it reads back from it.
use vstd::prelude::*;

use crate::commands::{
    export_import_selection, menu_selection, menu_with_args_selection, password_selection,
    readable_menu_number, readable_settings, settings_of,
};
use crate::model::{EntryView, MenuRequestView, SelectionView, ServerSettingsView, UserOptionView};
use crate::number::{
    all_digits, decimal, decimal_usize, index_from_c, is_digit, length_for_c, lemma_decimal_digits,
    lemma_decimal_round_trip, unsigned_digits,
};
use crate::scala::{null_scala_entry, scala_entry_of, scala_user_option_of};
use crate::text::{
    c_bytes, is_c_text, lemma_c_bytes_round_trip, lemma_c_bytes_zero, lemma_text_bytes_round_trip,
    null_word, text_of,
};
use vstd::utf8::valid_utf8;

verus! {

/// An ASCII character is encoded as the single byte of its code.
proof fn lemma_ascii_scalar(c: char)
    requires
        (c as u32) < 0x80,
    ensures
        vstd::utf8::encode_scalar(c as u32) == seq![c as u32 as u8],
{
    let v = c as u32;
    assert((v & 0x7F) as u8 == v as u8) by (bit_vector)
        requires
            v < 0x80,
    ;
}

/// The word for an absent value is valid UTF-8 and reads as the text `null`.
pub proof fn lemma_null_word_text()
    ensures
        valid_utf8(null_word()),
        text_of(null_word()) == "null"@,
{
    reveal_strlit("null");
    let t = "null"@;
    assert(t == seq!['n', 'u', 'l', 'l']);
    let t1 = t.drop_first();
    let t2 = t1.drop_first();
    let t3 = t2.drop_first();
    let t4 = t3.drop_first();
    assert(t4.len() == 0);
    lemma_ascii_scalar('l');
    lemma_ascii_scalar('u');
    lemma_ascii_scalar('n');
    assert(t3[0] == 'l' && t2[0] == 'l' && t1[0] == 'u' && t[0] == 'n');
    assert(c_bytes(t4) =~= Seq::<u8>::empty());
    assert(c_bytes(t3) =~= seq![108u8]);
    assert(c_bytes(t2) =~= seq![108u8, 108u8]);
    assert(c_bytes(t1) =~= seq![117u8, 108u8, 108u8]);
    assert(c_bytes(t) == null_word());
    lemma_c_bytes_round_trip(t);
}

/// The content of a C string is the word for an absent value exactly when it reads
/// as the text `null`.
pub proof fn lemma_null_word_iff_null_text(bytes: Seq<u8>)
    requires
        valid_utf8(bytes),
    ensures
        bytes == null_word() <==> text_of(bytes) == "null"@,
{
    lemma_null_word_text();
    lemma_text_bytes_round_trip(bytes);
    if text_of(bytes) == "null"@ {
        lemma_text_bytes_round_trip(null_word());
    }
}

/// The record of absent values reads back as four `null` texts.
pub proof fn lemma_null_entry_text()
    ensures
        null_scala_entry().readable(),
        null_scala_entry().entry() == (EntryView {
            name: "null"@,
            user: "null"@,
            pass: "null"@,
            desc: "null"@,
        }),
{
    lemma_null_word_text();
}

/// An entry handed to the user interface and returned unchanged is read back as
/// the same entry.
pub proof fn lemma_entry_round_trip(e: EntryView)
    requires
        e.transferable(),
    ensures
        scala_entry_of(e).wf(),
        scala_entry_of(e).readable(),
        scala_entry_of(e).entry() == e,
{
    lemma_c_bytes_round_trip(e.name);
    lemma_c_bytes_round_trip(e.user);
    lemma_c_bytes_round_trip(e.pass);
    lemma_c_bytes_round_trip(e.desc);
    lemma_c_bytes_zero(e.name);
    lemma_c_bytes_zero(e.user);
    lemma_c_bytes_zero(e.pass);
    lemma_c_bytes_zero(e.desc);
}

/// An option handed to the user interface and chosen there is read back as the
/// same option.
pub proof fn lemma_user_option_round_trip(o: UserOptionView)
    requires
        o.transferable(),
    ensures
        valid_utf8(scala_user_option_of(o).label),
        valid_utf8(scala_user_option_of(o).value),
        valid_utf8(scala_user_option_of(o).short_label),
        (UserOptionView {
            label: text_of(scala_user_option_of(o).label),
            value: text_of(scala_user_option_of(o).value),
            short_label: text_of(scala_user_option_of(o).short_label),
        }) == o,
{
    lemma_c_bytes_round_trip(o.label);
    lemma_c_bytes_round_trip(o.value);
    lemma_c_bytes_round_trip(o.short_label);
}

/// A menu request whose arguments are both `null` is the request of the menu alone.
pub proof fn lemma_menu_without_args(menu_name: Seq<u8>)
    ensures
        readable_menu_number(null_word()),
        menu_with_args_selection(menu_name, null_word(), null_word()) == menu_selection(
            menu_name,
        ),
{
}

/// A menu number written in decimal is read back as that number.
pub proof fn lemma_menu_number_round_trip(menu_name: Seq<u8>, n: usize, arg_str: Seq<u8>)
    ensures
        readable_menu_number(decimal(n as nat)),
        menu_with_args_selection(menu_name, decimal(n as nat), arg_str) matches SelectionView::GoTo(
            m,
        ) && m.number == Some(n as int),
{
    lemma_decimal_round_trip(n);
    let d = decimal(n as nat);
    assert(48 <= d[0] <= 57) by {
        lemma_decimal_digits(n as nat);
    }
    assert(d != null_word()) by {
        if d == null_word() {
            assert(d[0] == 110u8);
        }
    }
}

/// Server settings handed to the user interface as a list of four texts and saved
/// back unchanged are read as the same settings.
pub proof fn lemma_settings_round_trip(s: ServerSettingsView)
    requires
        is_c_text(s.server_url),
        is_c_text(s.username),
        is_c_text(s.password),
        is_c_text(s.certificate),
    ensures
        readable_settings(seq![c_bytes(s.server_url), c_bytes(s.username), c_bytes(s.password), c_bytes(s.certificate)]),
        settings_of(seq![c_bytes(s.server_url), c_bytes(s.username), c_bytes(s.password), c_bytes(s.certificate)]) == s,
{
    lemma_c_bytes_round_trip(s.server_url);
    lemma_c_bytes_round_trip(s.username);
    lemma_c_bytes_round_trip(s.password);
    lemma_c_bytes_round_trip(s.certificate);
    let l = seq![c_bytes(s.server_url), c_bytes(s.username), c_bytes(s.password), c_bytes(s.certificate)];
    assert forall|i: int| 0 <= i < 4 implies valid_utf8(#[trigger] l[i]) by {}
}

/// A non-negative index of a C call reaches the password manager unchanged, a
/// negative one wraps around as Rust's `as usize` makes it; different indices
/// stay different.
pub proof fn lemma_index_from_c(n: i32, m: i32)
    ensures
        n >= 0 ==> index_from_c(n) == n as int,
        n < 0 ==> index_from_c(n) == n + usize::MAX + 1,
        0 <= index_from_c(n) <= usize::MAX,
        index_from_c(n) == index_from_c(m) ==> n == m,
{
    assert(usize::MAX >= u32::MAX);
}

/// A list length that fits in 32 bits travels to the user interface unchanged.
pub proof fn lemma_length_for_c(len: usize)
    ensures
        len <= i32::MAX ==> length_for_c(len) == len as int,
{
}

/// The password is the text of its C string, and a non-negative number reaches
/// the password manager unchanged.
pub proof fn lemma_password_selection(password: Seq<u8>, number: i32)
    ensures
        number >= 0 ==> password_selection(password, number) == SelectionView::ProvidedPassword(
            text_of(password),
            number as int,
        ),
        number < 0 ==> password_selection(password, number) == SelectionView::ProvidedPassword(
            text_of(password),
            number + usize::MAX + 1,
        ),
{
    lemma_index_from_c(number, number);
}

/// A password handed in as the C bytes of a text reads as that text.
pub proof fn lemma_password_round_trip(t: Seq<char>, number: i32)
    requires
        is_c_text(t),
    ensures
        valid_utf8(c_bytes(t)),
        password_selection(c_bytes(t), number) matches SelectionView::ProvidedPassword(p, _) && p
            == t,
{
    lemma_c_bytes_round_trip(t);
}

/// An export goes to the path given; an import comes from the path, password and
/// number given, the number unchanged.
pub proof fn lemma_export_import_selection(
    path: Seq<u8>,
    export: u32,
    password: Seq<u8>,
    number: u32,
)
    ensures
        export > 0 ==> export_import_selection(path, export, password, number)
            == SelectionView::ExportTo(text_of(path)),
        export == 0 ==> export_import_selection(path, export, password, number)
            == SelectionView::ImportFrom(text_of(path), text_of(password), number as int),
{
}

/// A path and a password handed in as C bytes of texts read as those texts.
pub proof fn lemma_import_round_trip(path: Seq<char>, password: Seq<char>, number: u32)
    requires
        is_c_text(path),
        is_c_text(password),
    ensures
        export_import_selection(c_bytes(path), 0, c_bytes(password), number)
            == SelectionView::ImportFrom(path, password, number as int),
        export_import_selection(c_bytes(path), 1, c_bytes(password), number)
            == SelectionView::ExportTo(path),
{
    lemma_c_bytes_round_trip(path);
    lemma_c_bytes_round_trip(password);
}

/// A menu name handed in as the C bytes of a text is the name of the request,
/// with or without arguments.
pub proof fn lemma_menu_name_round_trip(t: Seq<char>, arg_num: Seq<u8>, arg_str: Seq<u8>)
    requires
        is_c_text(t),
    ensures
        menu_selection(c_bytes(t)) == SelectionView::GoTo(
            MenuRequestView { name: t, number: None, text: None },
        ),
        menu_with_args_selection(c_bytes(t), arg_num, arg_str) matches SelectionView::GoTo(m)
            && m.name == t,
{
    lemma_c_bytes_round_trip(t);
}

/// A text argument handed in as the C bytes of a text other than `null` is the
/// text of the request, whatever its length.
pub proof fn lemma_menu_text_round_trip(menu_name: Seq<u8>, arg_num: Seq<u8>, t: Seq<char>)
    requires
        is_c_text(t),
        t != "null"@,
    ensures
        valid_utf8(c_bytes(t)),
        menu_with_args_selection(menu_name, arg_num, c_bytes(t)) matches SelectionView::GoTo(m)
            && m.text == Some(t),
{
    lemma_c_bytes_round_trip(t);
    lemma_null_word_text();
    if c_bytes(t) == null_word() {
        assert(text_of(c_bytes(t)) == text_of(null_word()));
    }
}

/// A text that is empty, that has a byte other than a digit (but for a leading
/// `+`), or that is `+` alone, denotes no number.
pub proof fn lemma_decimal_rejects(text: Seq<u8>, i: int)
    ensures
        text.len() == 0 ==> decimal_usize(text) is None,
        text == seq![43u8] ==> decimal_usize(text) is None,
        0 <= i < text.len() && !is_digit(text[i]) && !(i == 0 && text[0] == 43u8)
            ==> decimal_usize(text) is None,
{
    if 0 <= i < text.len() && !is_digit(text[i]) && !(i == 0 && text[0] == 43u8) {
        let d = unsigned_digits(text);
        if text.len() > 0 && text[0] == 43u8 {
            assert(d[i - 1] == text[i]);
        } else {
            assert(d[i] == text[i]);
        }
        assert(!all_digits(d));
    }
    if text == seq![43u8] {
        assert(unsigned_digits(text).len() == 0);
    }
}

/// A number written in decimal after a `+` sign is read as that number.
pub proof fn lemma_signed_decimal(n: usize)
    ensures
        decimal_usize(seq![43u8] + decimal(n as nat)) == Some(n),
{
    lemma_decimal_round_trip(n);
    lemma_decimal_digits(n as nat);
    let t = seq![43u8] + decimal(n as nat);
    assert(unsigned_digits(t) == decimal(n as nat));
    assert(unsigned_digits(decimal(n as nat)) == decimal(n as nat)) by {
        assert(is_digit(decimal(n as nat)[0]));
    }
}

/// Server settings sent as a list of other than four texts are the marker text
/// in every field.
pub proof fn lemma_settings_of_wrong_length(strings: Seq<Seq<u8>>)
    requires
        strings.len() != 4,
    ensures
        settings_of(strings) == (ServerSettingsView {
            server_url: "Wrong Java Data"@,
            username: "Wrong Java Data"@,
            password: "Wrong Java Data"@,
            certificate: "Wrong Java Data"@,
        }),
{
}

} // verus!
