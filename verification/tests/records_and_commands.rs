use keylock_ui::{
    add_entry, delete_entry, export_import, go_to_menu, go_to_menu_plus_arg, replace_entry,
    set_configuration, set_password, user_option_selected, Entry, MenuRequest, ScalaEntriesSet,
    ScalaEntry, ScalaUserOption, ScalaUserOptionsSet, Selection, ServerSettings, StringList,
    UserOption,
};

fn entry(name: &str, user: &str, pass: &str, desc: &str) -> Entry {
    Entry {
        name: name.to_string(),
        user: user.to_string(),
        pass: pass.to_string(),
        desc: desc.to_string(),
    }
}

fn option(label: &str, value: &str, short_label: &str) -> UserOption {
    UserOption {
        label: label.to_string(),
        value: value.to_string(),
        short_label: short_label.to_string(),
    }
}

#[test]
fn scala_entry_carries_the_fields() {
    let e = entry("bank", "me", "s3cr\u{e9}t", "my bank");
    assert!(e.is_transferable());
    let s = ScalaEntry::new(&e);
    assert_eq!(s.name, b"bank".to_vec());
    assert_eq!(s.user, b"me".to_vec());
    assert_eq!(s.pass, "s3cr\u{e9}t".as_bytes().to_vec());
    assert_eq!(s.desc, b"my bank".to_vec());
    assert!(s.is_readable());
}

#[test]
fn entry_with_nul_is_not_transferable() {
    assert!(!entry("a\0", "u", "p", "d").is_transferable());
    assert!(!entry("a", "u", "p", "d\0").is_transferable());
    assert!(!option("a", "b", "\0").is_transferable());
    assert!(option("a", "b", "c").is_transferable());
}

#[test]
fn empty_and_null_entries() {
    let e = ScalaEntry::empty();
    assert!(e.name.is_empty() && e.user.is_empty() && e.pass.is_empty() && e.desc.is_empty());
    let n = ScalaEntry::with_nulls();
    for f in [&n.name, &n.user, &n.pass, &n.desc] {
        assert_eq!(f, &b"null".to_vec());
    }
}

#[test]
fn entries_set_keeps_order_and_count() {
    let entries = vec![entry("a", "1", "x", ""), entry("b", "2", "y", ""), entry("c", "3", "z", "")];
    let set = ScalaEntriesSet::from(&entries);
    assert_eq!(set.number_of_entries, 3);
    assert_eq!(set.entries.len(), 3);
    for (s, e) in set.entries.iter().zip(entries.iter()) {
        assert_eq!(s, &ScalaEntry::new(e));
    }
    let none = ScalaEntriesSet::from(&[]);
    assert_eq!(none.number_of_entries, 0);
    assert!(none.entries.is_empty());
}

#[test]
fn entries_set_with_nulls() {
    let set = ScalaEntriesSet::with_nulls();
    assert_eq!(set.number_of_entries, 1);
    assert_eq!(set.entries, vec![ScalaEntry::with_nulls()]);
}

#[test]
fn user_options_set() {
    let opts = vec![option("Ok", "String(Ok)", "o"), option("Cancel", "String(Cancel)", "c")];
    let set = ScalaUserOptionsSet::from(&opts);
    assert_eq!(set.number_of_options, 2);
    assert_eq!(set.options[0].label, b"Ok".to_vec());
    assert_eq!(set.options[0].value, b"String(Ok)".to_vec());
    assert_eq!(set.options[0].short_label, b"o".to_vec());
    assert_eq!(set.options[1], ScalaUserOption::new(&opts[1]));
    let nulls = ScalaUserOptionsSet::with_nulls();
    assert_eq!(nulls.number_of_options, 1);
    assert_eq!(nulls.options[0].label, b"null".to_vec());
    assert_eq!(nulls.options[0].value, b"null".to_vec());
    assert_eq!(nulls.options[0].short_label, b"null".to_vec());
}

#[test]
fn string_list_keeps_order_and_count() {
    let list = StringList::from(vec!["one".to_string(), "tw\u{f6}".to_string()]);
    assert_eq!(list.number_of_strings, 2);
    assert_eq!(list.strings, vec![b"one".to_vec(), "tw\u{f6}".as_bytes().to_vec()]);
    let empty = StringList::from(Vec::new());
    assert_eq!(empty.number_of_strings, 0);
}

#[test]
fn password_selection() {
    assert_eq!(
        set_password(b"secret", 3),
        Selection::ProvidedPassword("secret".to_string(), 3)
    );
    assert_eq!(
        set_password("p\u{e4}ss".as_bytes(), -1),
        Selection::ProvidedPassword("p\u{e4}ss".to_string(), usize::MAX)
    );
}

#[test]
fn menu_selection() {
    assert_eq!(
        go_to_menu(b"Main"),
        Selection::GoTo(MenuRequest { name: "Main".to_string(), number: None, text: None })
    );
}

#[test]
fn menu_with_arguments() {
    assert_eq!(
        go_to_menu_plus_arg(b"ShowEntry", b"3", b"null"),
        Selection::GoTo(MenuRequest { name: "ShowEntry".to_string(), number: Some(3), text: None })
    );
    assert_eq!(
        go_to_menu_plus_arg(b"EntriesList", b"null", b"bank"),
        Selection::GoTo(MenuRequest {
            name: "EntriesList".to_string(),
            number: None,
            text: Some("bank".to_string()),
        })
    );
    assert_eq!(
        go_to_menu_plus_arg(b"X", b"+12", b""),
        Selection::GoTo(MenuRequest {
            name: "X".to_string(),
            number: Some(12),
            text: Some(String::new()),
        })
    );
}

#[test]
fn null_arguments_mean_no_arguments() {
    for name in ["Main", "TryPass", "Save"] {
        assert_eq!(
            go_to_menu_plus_arg(name.as_bytes(), b"null", b"null"),
            go_to_menu(name.as_bytes())
        );
    }
}

#[test]
fn menu_number_round_trip() {
    for n in [0usize, 7, 4242] {
        match go_to_menu_plus_arg(b"EditEntry", n.to_string().as_bytes(), b"null") {
            Selection::GoTo(m) => assert_eq!(m.number, Some(n)),
            other => panic!("unexpected {:?}", other),
        }
    }
}

#[test]
fn entry_selections() {
    let java = ScalaEntry::new(&entry("n", "u", "p", "d"));
    assert_eq!(add_entry(&java), Selection::NewEntry(entry("n", "u", "p", "d")));
    assert_eq!(replace_entry(&java, 2), Selection::ReplaceEntry(2, entry("n", "u", "p", "d")));
    assert_eq!(
        replace_entry(&java, -2),
        Selection::ReplaceEntry(usize::MAX - 1, entry("n", "u", "p", "d"))
    );
    assert_eq!(delete_entry(4), Selection::DeleteEntry(4));
    assert_eq!(delete_entry(-1), Selection::DeleteEntry(usize::MAX));
}

#[test]
fn entry_round_trip() {
    for e in [entry("", "", "", ""), entry("mail", "me@x", "p\u{e4}\u{1F511}", "work mail")] {
        assert_eq!(add_entry(&ScalaEntry::new(&e)), Selection::NewEntry(e.clone()));
    }
}

#[test]
fn unreadable_entry_is_detected() {
    let mut java = ScalaEntry::new(&entry("n", "u", "p", "d"));
    java.pass = vec![0xFF];
    assert!(!java.is_readable());
}

#[test]
fn export_or_import() {
    assert_eq!(
        export_import(b"/tmp/out.toml", 1, b"ignored", 0),
        Selection::ExportTo("/tmp/out.toml".to_string())
    );
    // the password is not read for an export
    assert_eq!(
        export_import(b"/tmp/out.toml", 7, &[0xFF], 0),
        Selection::ExportTo("/tmp/out.toml".to_string())
    );
    assert_eq!(
        export_import(b"/tmp/in.toml", 0, b"pw", 33),
        Selection::ImportFrom("/tmp/in.toml".to_string(), "pw".to_string(), 33)
    );
}

#[test]
fn option_selection() {
    assert_eq!(
        user_option_selected(b"Ok", b"String(Ok)", b"o"),
        Selection::UserOption(option("Ok", "String(Ok)", "o"))
    );
}

#[test]
fn option_round_trip() {
    let o = option("Yes", "String(Yes)", "y");
    let s = ScalaUserOption::new(&o);
    assert_eq!(
        user_option_selected(&s.label, &s.value, &s.short_label),
        Selection::UserOption(o)
    );
}

fn settings(a: &str, b: &str, c: &str, d: &str) -> ServerSettings {
    ServerSettings {
        server_url: a.to_string(),
        username: b.to_string(),
        password: c.to_string(),
        certificate: d.to_string(),
    }
}

#[test]
fn configuration_of_four_texts() {
    let list = StringList::from(vec![
        "https://cloud.example".to_string(),
        "me".to_string(),
        "pw".to_string(),
        "/certs/ca.der".to_string(),
    ]);
    assert_eq!(
        set_configuration(&list),
        Selection::UpdateConfiguration(settings("https://cloud.example", "me", "pw", "/certs/ca.der"))
    );
}

#[test]
fn configuration_of_wrong_length() {
    let wrong = settings("Wrong Java Data", "Wrong Java Data", "Wrong Java Data", "Wrong Java Data");
    for n in [0usize, 3, 5] {
        let list = StringList::from(vec!["x".to_string(); n]);
        assert_eq!(set_configuration(&list), Selection::UpdateConfiguration(wrong.clone()));
    }
    // only the number of texts counts, not the count that travels with them
    let mut list = StringList::from(vec!["a".to_string(); 3]);
    list.number_of_strings = 4;
    assert_eq!(set_configuration(&list), Selection::UpdateConfiguration(wrong));
}
