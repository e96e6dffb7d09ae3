//! The JSON document of a result list.
//!
//! The spec functions say, for each record, which members its object has: a
//! required field always, an optional field only where it is present, each
//! under its key in the schema and in the schema's order. The executable
//! functions write exactly that text.

use vstd::prelude::*;
use vstd::string::*;
use crate::encode::{
    bool_text, encode_bool, encode_string, string_ok, string_text, SerializationError,
};
use crate::model::{
    opt_chars, opt_mod, AlfredItem, AlfredItemIcon, AlfredItemIconType, AlfredItemMod,
    AlfredItemMods, AlfredItemText, AlfredItemType, AlfredItems, IconView, ItemView, ModView,
    ModsView, TextView,
};
use crate::writer::{array_of, array_text, keys_of, object_text, texts_of, ObjectWriter};

verus! {

/// Whether an optional string is absent or has a JSON text.
pub open spec fn opt_string_ok(value: Option<Seq<char>>) -> bool {
    match value {
        Some(s) => string_ok(s),
        None => true,
    }
}

/// The member of an optional string: none where it is absent.
pub open spec fn opt_string_member(key: Seq<char>, value: Option<Seq<char>>) -> Seq<
    (Seq<char>, Seq<char>),
> {
    match value {
        Some(s) => seq![(key, string_text(s))],
        None => seq![],
    }
}

/// The member of an optional boolean: none where it is absent.
pub open spec fn opt_bool_member(key: Seq<char>, value: Option<bool>) -> Seq<
    (Seq<char>, Seq<char>),
> {
    match value {
        Some(b) => seq![(key, bool_text(b))],
        None => seq![],
    }
}

/// The JSON text of an item type.
pub open spec fn item_type_text(kind: AlfredItemType) -> Seq<char> {
    match kind {
        AlfredItemType::Default => "\"default\""@,
        AlfredItemType::File => "\"file\""@,
        AlfredItemType::FileSkipCheck => "\"file:skipcheck\""@,
    }
}

/// The JSON text of an icon type.
pub open spec fn icon_type_text(kind: AlfredItemIconType) -> Seq<char> {
    match kind {
        AlfredItemIconType::FileIcon => "\"fileicon\""@,
        AlfredItemIconType::FileType => "\"filetype\""@,
    }
}

/// Whether every string of an icon has a JSON text.
pub open spec fn icon_ok(icon: IconView) -> bool {
    string_ok(icon.path)
}

/// The members of an icon's object: `type` where present, then `path`.
pub open spec fn icon_members(icon: IconView) -> Seq<(Seq<char>, Seq<char>)> {
    (match icon.icon_type {
        Some(kind) => seq![("type"@, icon_type_text(kind))],
        None => seq![],
    }) + seq![("path"@, string_text(icon.path))]
}

/// Whether every string of the texts has a JSON text.
pub open spec fn text_ok(text: TextView) -> bool {
    opt_string_ok(text.copy) && opt_string_ok(text.largetype)
}

/// The members of the texts' object: `copy`, `largetype`.
pub open spec fn text_members(text: TextView) -> Seq<(Seq<char>, Seq<char>)> {
    opt_string_member("copy"@, text.copy) + opt_string_member("largetype"@, text.largetype)
}

/// Whether every string of a modifier has a JSON text.
pub open spec fn mod_ok(m: ModView) -> bool {
    opt_string_ok(m.arg) && opt_string_ok(m.subtitle)
}

/// The members of a modifier's object: `valid`, `arg`, `subtitle`.
pub open spec fn mod_members(m: ModView) -> Seq<(Seq<char>, Seq<char>)> {
    opt_bool_member("valid"@, m.valid) + opt_string_member("arg"@, m.arg) + opt_string_member(
        "subtitle"@,
        m.subtitle,
    )
}

/// Whether an optional modifier is absent or has a JSON text.
pub open spec fn opt_mod_ok(m: Option<ModView>) -> bool {
    match m {
        Some(x) => mod_ok(x),
        None => true,
    }
}

/// The member of an optional modifier: none where it is absent, else its
/// object, which is empty where the modifier has no field.
pub open spec fn opt_mod_member(key: Seq<char>, m: Option<ModView>) -> Seq<
    (Seq<char>, Seq<char>),
> {
    match m {
        Some(x) => seq![(key, object_text(mod_members(x)))],
        None => seq![],
    }
}

/// Whether every string of the modifiers has a JSON text.
pub open spec fn mods_ok(mods: ModsView) -> bool {
    opt_mod_ok(mods.alt) && opt_mod_ok(mods.cmd) && opt_mod_ok(mods.ctrl) && opt_mod_ok(
        mods.shift,
    )
}

/// The members of the modifiers' object: `alt`, `cmd`, `ctrl`, `shift`.
pub open spec fn mods_members(mods: ModsView) -> Seq<(Seq<char>, Seq<char>)> {
    opt_mod_member("alt"@, mods.alt) + opt_mod_member("cmd"@, mods.cmd) + opt_mod_member(
        "ctrl"@,
        mods.ctrl,
    ) + opt_mod_member("shift"@, mods.shift)
}

/// Whether every string of an item, at any depth, has a JSON text.
pub open spec fn item_ok(item: ItemView) -> bool {
    &&& opt_string_ok(item.uid)
    &&& string_ok(item.title)
    &&& opt_string_ok(item.subtitle)
    &&& opt_string_ok(item.arg)
    &&& (item.icon matches Some(icon) ==> icon_ok(icon))
    &&& opt_string_ok(item.autocomplete)
    &&& (item.item_mods matches Some(mods) ==> mods_ok(mods))
    &&& (item.text matches Some(text) ==> text_ok(text))
    &&& opt_string_ok(item.quicklookurl)
}

/// The member of an optional icon, under the key `icon`.
pub open spec fn opt_icon_member(icon: Option<IconView>) -> Seq<(Seq<char>, Seq<char>)> {
    match icon {
        Some(i) => seq![("icon"@, object_text(icon_members(i)))],
        None => seq![],
    }
}

/// The member of an optional item type, under the key `type`.
pub open spec fn opt_item_type_member(kind: Option<AlfredItemType>) -> Seq<
    (Seq<char>, Seq<char>),
> {
    match kind {
        Some(k) => seq![("type"@, item_type_text(k))],
        None => seq![],
    }
}

/// The member of optional modifiers, under the key `mods`.
pub open spec fn opt_mods_member(mods: Option<ModsView>) -> Seq<(Seq<char>, Seq<char>)> {
    match mods {
        Some(m) => seq![("mods"@, object_text(mods_members(m)))],
        None => seq![],
    }
}

/// The member of optional texts, under the key `text`.
pub open spec fn opt_text_member(text: Option<TextView>) -> Seq<(Seq<char>, Seq<char>)> {
    match text {
        Some(t) => seq![("text"@, object_text(text_members(t)))],
        None => seq![],
    }
}

/// The members of an item's object: `uid`, `title`, `subtitle`, `arg`, `icon`,
/// `valid`, `autocomplete`, `type`, `mods`, `text`, `quicklookurl`, of which
/// only `title` is always there.
pub open spec fn item_members(item: ItemView) -> Seq<(Seq<char>, Seq<char>)> {
    opt_string_member("uid"@, item.uid) + seq![("title"@, string_text(item.title))]
        + opt_string_member("subtitle"@, item.subtitle) + opt_string_member("arg"@, item.arg)
        + opt_icon_member(item.icon) + opt_bool_member("valid"@, item.valid)
        + opt_string_member("autocomplete"@, item.autocomplete) + opt_item_type_member(
        item.item_type,
    ) + opt_mods_member(item.item_mods) + opt_text_member(item.text) + opt_string_member(
        "quicklookurl"@,
        item.quicklookurl,
    )
}

/// The keys of an item's object, in the order in which they are written.
pub open spec fn item_keys(item: ItemView) -> Seq<Seq<char>> {
    keys_of(item_members(item))
}

/// The JSON text of an item.
pub open spec fn item_json(item: ItemView) -> Seq<char> {
    object_text(item_members(item))
}

/// Whether every string of every item has a JSON text.
pub open spec fn items_ok(items: Seq<ItemView>) -> bool {
    forall|i: int| 0 <= i < items.len() ==> item_ok(#[trigger] items[i])
}

/// The JSON texts of the items, in the items' order.
pub open spec fn item_texts(items: Seq<ItemView>) -> Seq<Seq<char>> {
    Seq::new(items.len(), |i: int| item_json(items[i]))
}

/// The document: one object with the one key `items`, which holds the array
/// of the items' objects.
pub open spec fn document_text(items: Seq<ItemView>) -> Seq<char> {
    object_text(seq![("items"@, array_text(item_texts(items)))])
}

/// What serializing a record gives: the text where every string could be
/// encoded, an error where one could not.
pub open spec fn serialized(
    ok: bool,
    text: Seq<char>,
    r: Result<String, SerializationError>,
) -> bool {
    match r {
        Ok(s) => ok && s@ == text,
        Err(_) => !ok,
    }
}

/// Adds a string under `key`.
fn put_string(w: ObjectWriter, key: &str, value: &str) -> (r: Result<
    ObjectWriter,
    SerializationError,
>)
    ensures
        match r {
            Ok(w2) => string_ok(value@) && w2@ == w@ + seq![(key@, string_text(value@))],
            Err(_) => !string_ok(value@),
        },
{
    match encode_string(value) {
        Ok(t) => {
            let w2 = w.member(key, t.as_str());
            assert(w2@ =~= w@ + seq![(key@, string_text(value@))]);
            Ok(w2)
        },
        Err(e) => Err(e),
    }
}

/// Adds a string under `key` where it is present.
fn put_opt_string(w: ObjectWriter, key: &str, value: &Option<String>) -> (r: Result<
    ObjectWriter,
    SerializationError,
>)
    ensures
        match r {
            Ok(w2) => opt_string_ok(opt_chars(*value)) && w2@ == w@
                + opt_string_member(key@, opt_chars(*value)),
            Err(_) => !opt_string_ok(opt_chars(*value)),
        },
{
    match value {
        Some(s) => put_string(w, key, s.as_str()),
        None => {
            assert(w@ =~= w@ + opt_string_member(key@, opt_chars(*value)));
            Ok(w)
        },
    }
}

/// Adds a boolean under `key` where it is present.
fn put_opt_bool(w: ObjectWriter, key: &str, value: &Option<bool>) -> (w2: ObjectWriter)
    ensures
        w2@ == w@ + opt_bool_member(key@, *value),
{
    match value {
        Some(b) => {
            let w2 = w.member(key, encode_bool(*b));
            assert(w2@ =~= w@ + opt_bool_member(key@, *value));
            w2
        },
        None => {
            assert(w@ =~= w@ + opt_bool_member(key@, *value));
            w
        },
    }
}

/// Adds a value whose JSON text is already written under `key`, where it is
/// present.
fn put_opt_value(w: ObjectWriter, key: &str, value: &Option<String>) -> (w2: ObjectWriter)
    ensures
        w2@ == w@ + (match *value {
            Some(t) => seq![(key@, t@)],
            None => seq![],
        }),
{
    match value {
        Some(t) => {
            let w2 = w.member(key, t.as_str());
            assert(w2@ =~= w@ + seq![(key@, t@)]);
            w2
        },
        None => {
            assert(w@ =~= w@ + Seq::<(Seq<char>, Seq<char>)>::empty());
            w
        },
    }
}

impl AlfredItemType {
    /// The token of this type, as JSON text.
    pub fn json_text(&self) -> (r: &'static str)
        ensures
            r@ == item_type_text(*self),
    {
        match self {
            AlfredItemType::Default => "\"default\"",
            AlfredItemType::File => "\"file\"",
            AlfredItemType::FileSkipCheck => "\"file:skipcheck\"",
        }
    }
}

impl AlfredItemIconType {
    /// The token of this type, as JSON text.
    pub fn json_text(&self) -> (r: &'static str)
        ensures
            r@ == icon_type_text(*self),
    {
        match self {
            AlfredItemIconType::FileIcon => "\"fileicon\"",
            AlfredItemIconType::FileType => "\"filetype\"",
        }
    }
}

impl AlfredItemIcon {
    /// The icon's object.
    pub fn to_json(&self) -> (r: Result<String, SerializationError>)
        ensures
            serialized(icon_ok(self@), object_text(icon_members(self@)), r),
    {
        let w = ObjectWriter::new();
        let kind = match &self.icon_type {
            Some(k) => Some(String::from_str(k.json_text())),
            None => None,
        };
        let w = put_opt_value(w, "type", &kind);
        let w = put_string(w, "path", self.path.as_str())?;
        assert(w@ =~= icon_members(self@));
        Ok(w.finish())
    }
}

impl AlfredItemText {
    /// The texts' object.
    pub fn to_json(&self) -> (r: Result<String, SerializationError>)
        ensures
            serialized(text_ok(self@), object_text(text_members(self@)), r),
    {
        let w = ObjectWriter::new();
        let w = put_opt_string(w, "copy", &self.copy)?;
        let w = put_opt_string(w, "largetype", &self.largetype)?;
        assert(w@ =~= text_members(self@));
        Ok(w.finish())
    }
}

impl AlfredItemMod {
    /// The modifier's object, which is `{}` where no field is present.
    pub fn to_json(&self) -> (r: Result<String, SerializationError>)
        ensures
            serialized(mod_ok(self@), object_text(mod_members(self@)), r),
    {
        let w = ObjectWriter::new();
        let w = put_opt_bool(w, "valid", &self.valid);
        let w = put_opt_string(w, "arg", &self.arg)?;
        let w = put_opt_string(w, "subtitle", &self.subtitle)?;
        assert(w@ =~= mod_members(self@));
        Ok(w.finish())
    }
}

/// Adds a modifier's object under `key` where the modifier is present.
fn put_opt_mod(w: ObjectWriter, key: &str, value: &Option<AlfredItemMod>) -> (r: Result<
    ObjectWriter,
    SerializationError,
>)
    ensures
        match r {
            Ok(w2) => opt_mod_ok(opt_mod(*value)) && w2@ == w@ + opt_mod_member(
                key@,
                opt_mod(*value),
            ),
            Err(_) => !opt_mod_ok(opt_mod(*value)),
        },
{
    match value {
        Some(m) => {
            let t = m.to_json()?;
            let w2 = w.member(key, t.as_str());
            assert(w2@ =~= w@ + opt_mod_member(key@, opt_mod(*value)));
            Ok(w2)
        },
        None => {
            assert(w@ =~= w@ + opt_mod_member(key@, opt_mod(*value)));
            Ok(w)
        },
    }
}

impl AlfredItemMods {
    /// The modifiers' object.
    pub fn to_json(&self) -> (r: Result<String, SerializationError>)
        ensures
            serialized(mods_ok(self@), object_text(mods_members(self@)), r),
    {
        let w = ObjectWriter::new();
        let w = put_opt_mod(w, "alt", &self.alt)?;
        let w = put_opt_mod(w, "cmd", &self.cmd)?;
        let w = put_opt_mod(w, "ctrl", &self.ctrl)?;
        let w = put_opt_mod(w, "shift", &self.shift)?;
        assert(w@ =~= mods_members(self@));
        Ok(w.finish())
    }
}

impl AlfredItem {
    /// The item's object: `title` always, and each optional field that is
    /// present, under its key and in the schema's order. An absent field
    /// leaves no trace in the text.
    #[verifier::rlimit(40)]
    pub fn to_json(&self) -> (r: Result<String, SerializationError>)
        ensures
            serialized(item_ok(self@), item_json(self@), r),
    {
        let icon = match &self.icon {
            Some(i) => Some(i.to_json()?),
            None => None,
        };
        let kind = match &self.item_type {
            Some(k) => Some(String::from_str(k.json_text())),
            None => None,
        };
        let mods = match &self.item_mods {
            Some(m) => Some(m.to_json()?),
            None => None,
        };
        let text = match &self.text {
            Some(t) => Some(t.to_json()?),
            None => None,
        };
        let w = ObjectWriter::new();
        let w = put_opt_string(w, "uid", &self.uid)?;
        let w = put_string(w, "title", self.title.as_str())?;
        let w = put_opt_string(w, "subtitle", &self.subtitle)?;
        let w = put_opt_string(w, "arg", &self.arg)?;
        let w = put_opt_value(w, "icon", &icon);
        let w = put_opt_bool(w, "valid", &self.valid);
        let w = put_opt_string(w, "autocomplete", &self.autocomplete)?;
        let w = put_opt_value(w, "type", &kind);
        let w = put_opt_value(w, "mods", &mods);
        let w = put_opt_value(w, "text", &text);
        let w = put_opt_string(w, "quicklookurl", &self.quicklookurl)?;
        assert(w@ =~= item_members(self@));
        Ok(w.finish())
    }
}

impl AlfredItems {
    /// The document that Alfred reads: `{"items":[..]}`, with the items'
    /// objects in the order in which the items were added. It fails only
    /// where the encoder refuses a string of the tree, and then gives no text.
    pub fn to_json(&self) -> (r: Result<String, SerializationError>)
        ensures
            serialized(items_ok(self@), document_text(self@), r),
    {
        let mut texts: Vec<String> = Vec::new();
        let mut i: usize = 0;
        while i < self.items.len()
            invariant
                i <= self.items.len(),
                texts@.len() == i,
                forall|j: int|
                    0 <= j < i ==> item_ok(#[trigger] self@[j]) && texts@[j]@ == item_json(
                        self@[j],
                    ),
            decreases self.items.len() - i,
        {
            let t = match self.items[i].to_json() {
                Ok(t) => t,
                Err(e) => {
                    assert(!item_ok(self@[i as int]));
                    return Err(e);
                },
            };
            texts.push(t);
            i += 1;
        }
        let array = array_of(&texts);
        let w = ObjectWriter::new().member("items", array.as_str());
        proof {
            assert(texts_of(texts@) =~= item_texts(self@));
            assert(w@ =~= seq![("items"@, array_text(item_texts(self@)))]);
        }
        Ok(w.finish())
    }
}

} // verus!
