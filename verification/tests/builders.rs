use rusty_alfred::encode::encode_bool;
use rusty_alfred::encode::encode_string;
use rusty_alfred::writer::array_of;
use rusty_alfred::AlfredItem;
use rusty_alfred::AlfredItemIcon;
use rusty_alfred::AlfredItemIconType;
use rusty_alfred::AlfredItemMod;
use rusty_alfred::AlfredItemMods;
use rusty_alfred::AlfredItemText;
use rusty_alfred::AlfredItemType;
use rusty_alfred::AlfredItems;
use rusty_alfred::ObjectWriter;

#[test]
fn new_item_has_only_a_title() {
    let item = AlfredItem::new("hello");
    assert_eq!(item.title, "hello");
    assert_eq!(item.uid, None);
    assert_eq!(item.subtitle, None);
    assert_eq!(item.arg, None);
    assert_eq!(item.icon, None);
    assert_eq!(item.valid, None);
    assert_eq!(item.autocomplete, None);
    assert_eq!(item.item_type, None);
    assert_eq!(item.item_mods, None);
    assert_eq!(item.text, None);
    assert_eq!(item.quicklookurl, None);
}

#[test]
fn item_setters_set_their_field_and_no_other() {
    let item = AlfredItem::new("t").uid("u");
    assert_eq!(item.uid.as_deref(), Some("u"));
    assert_eq!(item.title, "t");
    assert_eq!(item.subtitle, None);
    let item = item.title("t2").subtitle("s").arg("a").autocomplete("c").quicklookurl("q");
    assert_eq!(item.uid.as_deref(), Some("u"));
    assert_eq!(item.title, "t2");
    assert_eq!(item.subtitle.as_deref(), Some("s"));
    assert_eq!(item.arg.as_deref(), Some("a"));
    assert_eq!(item.autocomplete.as_deref(), Some("c"));
    assert_eq!(item.quicklookurl.as_deref(), Some("q"));
    assert_eq!(item.valid, None);
    let item = item
        .valid(false)
        .item_type(AlfredItemType::File)
        .icon(AlfredItemIcon::new("p"))
        .item_mods(AlfredItemMods::new())
        .text(AlfredItemText::new());
    assert_eq!(item.valid, Some(false));
    assert_eq!(item.item_type, Some(AlfredItemType::File));
    assert_eq!(item.icon, Some(AlfredItemIcon { icon_type: None, path: "p".to_string() }));
    assert_eq!(item.item_mods, Some(AlfredItemMods::default()));
    assert_eq!(item.text, Some(AlfredItemText::default()));
    assert_eq!(item.title, "t2");
}

#[test]
fn a_later_value_replaces_an_earlier_one() {
    let item = AlfredItem::new("t").subtitle("one").subtitle("two");
    assert_eq!(item.subtitle.as_deref(), Some("two"));
    assert_eq!(item.to_json().unwrap(), r#"{"title":"t","subtitle":"two"}"#);
}

#[test]
fn icon_builders() {
    let icon = AlfredItemIcon::new("a.png");
    assert_eq!(icon.path, "a.png");
    assert_eq!(icon.icon_type, None);
    let icon = icon.icon_type(AlfredItemIconType::FileIcon).path("b.png");
    assert_eq!(icon.path, "b.png");
    assert_eq!(icon.icon_type, Some(AlfredItemIconType::FileIcon));
    assert_eq!(icon.to_json().unwrap(), r#"{"type":"fileicon","path":"b.png"}"#);
}

#[test]
fn text_builders() {
    let text = AlfredItemText::new();
    assert_eq!(text, AlfredItemText { copy: None, largetype: None });
    let text = text.copy("c");
    assert_eq!(text.copy.as_deref(), Some("c"));
    assert_eq!(text.largetype, None);
    let text = text.largetype("l");
    assert_eq!(text.copy.as_deref(), Some("c"));
    assert_eq!(text.largetype.as_deref(), Some("l"));
}

#[test]
fn modifier_builders() {
    let m = AlfredItemMod::new();
    assert_eq!(m, AlfredItemMod { valid: None, arg: None, subtitle: None });
    let m = m.valid(true).arg("a").subtitle("s");
    assert_eq!(m.valid, Some(true));
    assert_eq!(m.arg.as_deref(), Some("a"));
    assert_eq!(m.subtitle.as_deref(), Some("s"));
    let mods = AlfredItemMods::new();
    assert_eq!(mods, AlfredItemMods { alt: None, cmd: None, ctrl: None, shift: None });
    let mods = mods.alt(AlfredItemMod::new().arg("1"));
    assert_eq!(mods.alt, Some(AlfredItemMod::new().arg("1")));
    assert_eq!(mods.cmd, None);
    let mods = mods.cmd(AlfredItemMod::new().arg("2"));
    let mods = mods.ctrl(AlfredItemMod::new().arg("3"));
    let mods = mods.shift(AlfredItemMod::new().arg("4"));
    assert_eq!(mods.alt.as_ref().unwrap().arg.as_deref(), Some("1"));
    assert_eq!(mods.cmd.as_ref().unwrap().arg.as_deref(), Some("2"));
    assert_eq!(mods.ctrl.as_ref().unwrap().arg.as_deref(), Some("3"));
    assert_eq!(mods.shift.as_ref().unwrap().arg.as_deref(), Some("4"));
}

#[test]
fn list_builders() {
    let items = AlfredItems::new();
    assert!(items.items.is_empty());
    let items = items.item(AlfredItem::new("a"));
    assert_eq!(items.items.len(), 1);
    let items = items.item(AlfredItem::new("b"));
    assert_eq!(items.items.len(), 2);
    assert_eq!(items.items[0], AlfredItem::new("a"));
    assert_eq!(items.items[1], AlfredItem::new("b"));
}

#[test]
fn writer_joins_members_with_commas() {
    assert_eq!(ObjectWriter::new().finish(), "{}");
    assert_eq!(ObjectWriter::new().member("a", "1").finish(), r#"{"a":1}"#);
    assert_eq!(
        ObjectWriter::new().member("a", "1").member("b", "\"x\"").member("c", "{}").finish(),
        r#"{"a":1,"b":"x","c":{}}"#
    );
}

#[test]
fn array_joins_elements_with_commas() {
    assert_eq!(array_of(&Vec::new()), "[]");
    assert_eq!(array_of(&vec!["1".to_string()]), "[1]");
    assert_eq!(
        array_of(&vec!["{}".to_string(), "true".to_string(), "\"s\"".to_string()]),
        r#"[{},true,"s"]"#
    );
}

#[test]
fn booleans() {
    assert_eq!(encode_bool(true), "true");
    assert_eq!(encode_bool(false), "false");
}

#[test]
fn string_tokens() {
    assert_eq!(encode_string("").unwrap(), "\"\"");
    assert_eq!(encode_string("plain").unwrap(), "\"plain\"");
    assert_eq!(encode_string("a\"b").unwrap(), "\"a\\\"b\"");
    assert_eq!(encode_string("a\\b").unwrap(), "\"a\\\\b\"");
    assert_eq!(encode_string("line\nbreak").unwrap(), "\"line\\nbreak\"");
    assert_eq!(encode_string("\u{1}").unwrap(), "\"\\u0001\"");
    assert_eq!(encode_string("\u{e9}").unwrap(), "\"\u{e9}\"");
}
