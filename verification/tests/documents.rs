use rusty_alfred::AlfredItem;
use rusty_alfred::AlfredItemIcon;
use rusty_alfred::AlfredItemIconType;
use rusty_alfred::AlfredItemMod;
use rusty_alfred::AlfredItemMods;
use rusty_alfred::AlfredItemText;
use rusty_alfred::AlfredItemType;
use rusty_alfred::AlfredItems;

fn text_of(items: &AlfredItems) -> String {
    items.to_json().unwrap()
}

fn one(item: AlfredItem) -> String {
    item.to_json().unwrap()
}

#[test]
fn empty_list_is_an_empty_array() {
    assert_eq!(text_of(&AlfredItems::new()), r#"{"items":[]}"#);
    assert_eq!(text_of(&AlfredItems::default()), r#"{"items":[]}"#);
}

#[test]
fn two_items_with_subtitles() {
    let items = AlfredItems::new()
        .item(AlfredItem::new("First item").subtitle("The first item's subtitle"))
        .item(AlfredItem::new("Second item").subtitle("Another subtitle!"));
    assert_eq!(
        text_of(&items),
        r#"{"items":[{"title":"First item","subtitle":"The first item's subtitle"},{"title":"Second item","subtitle":"Another subtitle!"}]}"#
    );
}

#[test]
fn item_with_nested_records() {
    let items = AlfredItems::new()
        .item(
            AlfredItem::new("Title 1")
                .subtitle("This is a subtitle for item 1.")
                .arg("title1")
                .icon(AlfredItemIcon::new("one.png"))
                .valid(true)
                .autocomplete("first")
                .item_type(AlfredItemType::Default)
                .item_mods(
                    AlfredItemMods::default()
                        .alt(AlfredItemMod::default().subtitle("Secret option subtitle.")),
                )
                .text(
                    AlfredItemText::default()
                        .copy("You copied option one.")
                        .largetype("Hello, large type!"),
                )
                .quicklookurl("https://google.com"),
        )
        .item(
            AlfredItem::new("Title 2")
                .subtitle("This is a subtitle for item 2.")
                .arg("title2"),
        );
    let text = text_of(&items);
    assert_eq!(
        text,
        concat_parts(&[
            r#"{"items":[{"title":"Title 1","subtitle":"This is a subtitle for item 1.","#,
            r#""arg":"title1","icon":{"path":"one.png"},"valid":true,"autocomplete":"first","#,
            r#""type":"default","mods":{"alt":{"subtitle":"Secret option subtitle."}},"#,
            r#""text":{"copy":"You copied option one.","largetype":"Hello, large type!"},"#,
            r#""quicklookurl":"https://google.com"},"#,
            r#"{"title":"Title 2","subtitle":"This is a subtitle for item 2.","arg":"title2"}]}"#,
        ])
    );
    assert!(!text.contains("null"));
    let value: serde_json::Value = serde_json::from_str(&text).unwrap();
    let first = value.get("items").unwrap().get(0).unwrap().as_object().unwrap();
    assert_eq!(first.len(), 10);
    assert!(first.get("uid").is_none());
    assert_eq!(first.get("type").unwrap().as_str(), Some("default"));
    assert_eq!(first.get("valid").unwrap().as_bool(), Some(true));
    let alt = first.get("mods").unwrap().get("alt").unwrap().as_object().unwrap();
    assert_eq!(alt.len(), 1);
}

fn concat_parts(parts: &[&str]) -> String {
    let mut s = String::new();
    for p in parts {
        s.push_str(p);
    }
    s
}

#[test]
fn title_alone_gives_one_key() {
    assert_eq!(one(AlfredItem::new("T")), r#"{"title":"T"}"#);
    assert_eq!(one(AlfredItem::new("")), r#"{"title":""}"#);
    let text = one(AlfredItem::new("only the title"));
    let value: serde_json::Value = serde_json::from_str(&text).unwrap();
    let object = value.as_object().unwrap();
    assert_eq!(object.len(), 1);
    assert_eq!(object.get("title").unwrap().as_str(), Some("only the title"));
}

#[test]
fn each_optional_field_alone() {
    assert_eq!(one(AlfredItem::new("T").uid("u1")), r#"{"uid":"u1","title":"T"}"#);
    assert_eq!(one(AlfredItem::new("T").subtitle("s")), r#"{"title":"T","subtitle":"s"}"#);
    assert_eq!(one(AlfredItem::new("T").arg("a")), r#"{"title":"T","arg":"a"}"#);
    assert_eq!(
        one(AlfredItem::new("T").icon(AlfredItemIcon::new("p.png"))),
        r#"{"title":"T","icon":{"path":"p.png"}}"#
    );
    assert_eq!(one(AlfredItem::new("T").valid(false)), r#"{"title":"T","valid":false}"#);
    assert_eq!(one(AlfredItem::new("T").valid(true)), r#"{"title":"T","valid":true}"#);
    assert_eq!(
        one(AlfredItem::new("T").autocomplete("au")),
        r#"{"title":"T","autocomplete":"au"}"#
    );
    assert_eq!(
        one(AlfredItem::new("T").item_type(AlfredItemType::File)),
        r#"{"title":"T","type":"file"}"#
    );
    assert_eq!(
        one(AlfredItem::new("T").item_mods(AlfredItemMods::new())),
        r#"{"title":"T","mods":{}}"#
    );
    assert_eq!(
        one(AlfredItem::new("T").text(AlfredItemText::new())),
        r#"{"title":"T","text":{}}"#
    );
    assert_eq!(
        one(AlfredItem::new("T").quicklookurl("https://example.org/q")),
        r#"{"title":"T","quicklookurl":"https://example.org/q"}"#
    );
}

#[test]
fn no_field_is_written_as_null() {
    let texts = [
        one(AlfredItem::new("T")),
        one(AlfredItem::new("T").item_mods(AlfredItemMods::new().cmd(AlfredItemMod::new()))),
        one(AlfredItem::new("T").icon(AlfredItemIcon::new("x")).text(AlfredItemText::new())),
        text_of(&AlfredItems::new().item(AlfredItem::new("T").valid(false))),
    ];
    for text in texts.iter() {
        assert!(!text.contains("null"));
    }
}

#[test]
fn all_fields_in_schema_order() {
    let item = AlfredItem::new("T")
        .quicklookurl("q")
        .text(AlfredItemText::new().largetype("L").copy("C"))
        .item_mods(
            AlfredItemMods::new()
                .shift(AlfredItemMod::new().subtitle("s4").arg("a4").valid(false))
                .ctrl(AlfredItemMod::new().arg("a3"))
                .cmd(AlfredItemMod::new().valid(true))
                .alt(AlfredItemMod::new()),
        )
        .item_type(AlfredItemType::FileSkipCheck)
        .autocomplete("au")
        .valid(true)
        .icon(AlfredItemIcon::new("i").icon_type(AlfredItemIconType::FileType))
        .arg("a")
        .subtitle("s")
        .uid("u");
    assert_eq!(
        one(item),
        concat_parts(&[
            r#"{"uid":"u","title":"T","subtitle":"s","arg":"a","#,
            r#""icon":{"type":"filetype","path":"i"},"valid":true,"autocomplete":"au","#,
            r#""type":"file:skipcheck","#,
            r#""mods":{"alt":{},"cmd":{"valid":true},"ctrl":{"arg":"a3"},"#,
            r#""shift":{"valid":false,"arg":"a4","subtitle":"s4"}},"#,
            r#""text":{"copy":"C","largetype":"L"},"quicklookurl":"q"}"#,
        ])
    );
}

#[test]
fn enum_tokens() {
    assert_eq!(AlfredItemType::Default.json_text(), r#""default""#);
    assert_eq!(AlfredItemType::File.json_text(), r#""file""#);
    assert_eq!(AlfredItemType::FileSkipCheck.json_text(), r#""file:skipcheck""#);
    assert_eq!(AlfredItemIconType::FileIcon.json_text(), r#""fileicon""#);
    assert_eq!(AlfredItemIconType::FileType.json_text(), r#""filetype""#);
    assert_eq!(
        one(AlfredItem::new("t").item_type(AlfredItemType::Default)),
        r#"{"title":"t","type":"default"}"#
    );
    assert_eq!(
        one(AlfredItem::new("t").item_type(AlfredItemType::FileSkipCheck)),
        r#"{"title":"t","type":"file:skipcheck"}"#
    );
    assert_eq!(
        AlfredItemIcon::new("p").icon_type(AlfredItemIconType::FileIcon).to_json().unwrap(),
        r#"{"type":"fileicon","path":"p"}"#
    );
    assert_eq!(
        AlfredItemIcon::new("p").icon_type(AlfredItemIconType::FileType).to_json().unwrap(),
        r#"{"type":"filetype","path":"p"}"#
    );
}

#[test]
fn items_keep_the_order_of_insertion() {
    let items = AlfredItems::new()
        .item(AlfredItem::new("A").uid("3"))
        .item(AlfredItem::new("B"))
        .item(AlfredItem::new("C").uid("1"));
    assert_eq!(
        text_of(&items),
        r#"{"items":[{"uid":"3","title":"A"},{"title":"B"},{"uid":"1","title":"C"}]}"#
    );
    assert_eq!(items.items.len(), 3);
    assert_eq!(items.items[0].title, "A");
    assert_eq!(items.items[1].title, "B");
    assert_eq!(items.items[2].title, "C");
}

#[test]
fn serializing_twice_gives_the_same_text() {
    let items = AlfredItems::new()
        .item(AlfredItem::new("A \"quoted\" title").uid("x").valid(true))
        .item(AlfredItem::new("B").text(AlfredItemText::new().copy("c")));
    let first = items.to_json().unwrap();
    let second = items.to_json().unwrap();
    assert_eq!(first, second);
    assert_eq!(first.as_bytes(), second.as_bytes());
}

#[test]
fn renamed_keys() {
    let text = one(
        AlfredItem::new("T")
            .item_type(AlfredItemType::Default)
            .item_mods(AlfredItemMods::new()),
    );
    assert_eq!(text, r#"{"title":"T","type":"default","mods":{}}"#);
    let value: serde_json::Value = serde_json::from_str(&text).unwrap();
    let object = value.as_object().unwrap();
    assert!(object.contains_key("type"));
    assert!(object.contains_key("mods"));
    assert!(!object.contains_key("kind"));
    assert!(!object.contains_key("item_type"));
    assert!(!object.contains_key("modifiers"));
    assert!(!object.contains_key("item_mods"));
    let icon = AlfredItemIcon::new("p").icon_type(AlfredItemIconType::FileIcon).to_json().unwrap();
    let value: serde_json::Value = serde_json::from_str(&icon).unwrap();
    assert!(value.as_object().unwrap().contains_key("type"));
    assert!(!value.as_object().unwrap().contains_key("icon_type"));
}

#[test]
fn strings_are_escaped_by_the_encoder() {
    let title = "quote \" backslash \\ newline \n tab \t bell \u{7} snowman \u{2603}";
    let text = one(AlfredItem::new(title));
    assert_eq!(
        text,
        "{\"title\":\"quote \\\" backslash \\\\ newline \\n tab \\t bell \\u0007 snowman \u{2603}\"}"
    );
    let value: serde_json::Value = serde_json::from_str(&text).unwrap();
    assert_eq!(value.get("title").unwrap().as_str(), Some(title));
}

#[test]
fn a_value_that_looks_like_json_stays_a_string() {
    let text = one(AlfredItem::new("null").subtitle("{\"a\":1}").arg("true"));
    let value: serde_json::Value = serde_json::from_str(&text).unwrap();
    assert_eq!(value.get("title").unwrap().as_str(), Some("null"));
    assert_eq!(value.get("subtitle").unwrap().as_str(), Some("{\"a\":1}"));
    assert_eq!(value.get("arg").unwrap().as_str(), Some("true"));
}

#[test]
fn empty_modifier_is_an_empty_object() {
    assert_eq!(AlfredItemMod::new().to_json().unwrap(), "{}");
    assert_eq!(AlfredItemMod::default().to_json().unwrap(), "{}");
    assert_eq!(
        AlfredItemMods::new().ctrl(AlfredItemMod::new()).to_json().unwrap(),
        r#"{"ctrl":{}}"#
    );
    assert_eq!(AlfredItemMods::default().to_json().unwrap(), "{}");
    assert_eq!(AlfredItemText::default().to_json().unwrap(), "{}");
}

#[test]
fn modifier_fields() {
    assert_eq!(AlfredItemMod::new().valid(true).to_json().unwrap(), r#"{"valid":true}"#);
    assert_eq!(AlfredItemMod::new().arg("x").to_json().unwrap(), r#"{"arg":"x"}"#);
    assert_eq!(AlfredItemMod::new().subtitle("y").to_json().unwrap(), r#"{"subtitle":"y"}"#);
    assert_eq!(
        AlfredItemMods::new()
            .alt(AlfredItemMod::new().arg("1"))
            .cmd(AlfredItemMod::new().arg("2"))
            .ctrl(AlfredItemMod::new().arg("3"))
            .shift(AlfredItemMod::new().arg("4"))
            .to_json()
            .unwrap(),
        r#"{"alt":{"arg":"1"},"cmd":{"arg":"2"},"ctrl":{"arg":"3"},"shift":{"arg":"4"}}"#
    );
}

#[test]
fn text_fields() {
    assert_eq!(AlfredItemText::new().copy("c").to_json().unwrap(), r#"{"copy":"c"}"#);
    assert_eq!(AlfredItemText::new().largetype("l").to_json().unwrap(), r#"{"largetype":"l"}"#);
}
