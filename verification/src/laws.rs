//! What holds of the document for every tree of records.

use vstd::prelude::*;
use crate::encode::{bool_text, string_text, SerializationError};
use crate::json::{
    document_text, icon_members, icon_type_text, item_json, item_keys, item_members, item_ok,
    item_texts, item_type_text, items_ok, mod_members, mods_members, opt_bool_member,
    opt_icon_member, opt_item_type_member, opt_mod_member, opt_mods_member, opt_string_member,
    opt_text_member, serialized, text_members,
};
use crate::model::{
    AlfredItemIconType, AlfredItemType, IconView, ItemView, ModView, ModsView, TextView,
};
use crate::writer::{array_text, joined, keys_of, member_text, members_text, object_text};

verus! {

/// An item that has only a title is an object with the one key `title`: its
/// text is `{"title":` and the title's JSON text and `}`.
pub proof fn lemma_title_only(title: Seq<char>)
    ensures
        item_keys(ItemView::titled(title)) == seq!["title"@],
        item_json(ItemView::titled(title)) == "{\"title\":"@ + string_text(title) + "}"@,
{
    let v = ItemView::titled(title);
    let ms = seq![("title"@, string_text(title))];
    assert(item_members(v) =~= ms);
    assert(item_keys(v) =~= seq!["title"@]);
    assert(members_text(ms) =~= seq![member_text("title"@, string_text(title))]);
    reveal_strlit("{");
    reveal_strlit("\"");
    reveal_strlit("title");
    reveal_strlit("\":");
    reveal_strlit("{\"title\":");
    assert(item_json(v) =~= "{\"title\":"@ + string_text(title) + "}"@);
}

/// The document is `{"items":[`, the items' objects with a comma between
/// neighbours, and `]}`.
pub proof fn lemma_document_shape(items: Seq<ItemView>)
    ensures
        document_text(items) == "{\"items\":["@ + joined(item_texts(items)) + "]}"@,
{
    let ms = seq![("items"@, array_text(item_texts(items)))];
    assert(members_text(ms) =~= seq![member_text("items"@, array_text(item_texts(items)))]);
    reveal_strlit("{");
    reveal_strlit("}");
    reveal_strlit("[");
    reveal_strlit("]");
    reveal_strlit("\"");
    reveal_strlit("items");
    reveal_strlit("\":");
    reveal_strlit("{\"items\":[");
    reveal_strlit("]}");
    assert(document_text(items) =~= "{\"items\":["@ + joined(item_texts(items)) + "]}"@);
}

/// An item with exactly one optional field present is an object with two
/// keys: `title` and the key of that field, in the schema's order. Every
/// absent field is left out: it has no member, with no value of any kind.
#[verifier::rlimit(40)]
pub proof fn lemma_single_optional_field(v: ItemView)
    requires
        v.optional_count() == 1,
    ensures
        item_keys(v).len() == 2,
        v.uid is Some ==> item_keys(v) == seq!["uid"@, "title"@],
        v.subtitle is Some ==> item_keys(v) == seq!["title"@, "subtitle"@],
        v.arg is Some ==> item_keys(v) == seq!["title"@, "arg"@],
        v.icon is Some ==> item_keys(v) == seq!["title"@, "icon"@],
        v.valid is Some ==> item_keys(v) == seq!["title"@, "valid"@],
        v.autocomplete is Some ==> item_keys(v) == seq!["title"@, "autocomplete"@],
        v.item_type is Some ==> item_keys(v) == seq!["title"@, "type"@],
        v.item_mods is Some ==> item_keys(v) == seq!["title"@, "mods"@],
        v.text is Some ==> item_keys(v) == seq!["title"@, "text"@],
        v.quicklookurl is Some ==> item_keys(v) == seq!["title"@, "quicklookurl"@],
{
    lemma_member_count(v);
    if v.uid is Some {
        assert(item_keys(v) =~= seq!["uid"@, "title"@]);
    } else if v.subtitle is Some {
        assert(item_keys(v) =~= seq!["title"@, "subtitle"@]);
    } else if v.arg is Some {
        assert(item_keys(v) =~= seq!["title"@, "arg"@]);
    } else if v.icon is Some {
        assert(item_keys(v) =~= seq!["title"@, "icon"@]);
    } else if v.valid is Some {
        assert(item_keys(v) =~= seq!["title"@, "valid"@]);
    } else if v.autocomplete is Some {
        assert(item_keys(v) =~= seq!["title"@, "autocomplete"@]);
    } else if v.item_type is Some {
        assert(item_keys(v) =~= seq!["title"@, "type"@]);
    } else if v.item_mods is Some {
        assert(item_keys(v) =~= seq!["title"@, "mods"@]);
    } else if v.text is Some {
        assert(item_keys(v) =~= seq!["title"@, "text"@]);
    } else {
        assert(item_keys(v) =~= seq!["title"@, "quicklookurl"@]);
    }
}

/// The document holds the items' objects in the items' order: adding an item
/// puts its object after the others and changes none of them, whatever
/// identifiers the items carry.
pub proof fn lemma_append_keeps_order(items: Seq<ItemView>, item: ItemView)
    ensures
        item_texts(items).len() == items.len(),
        forall|i: int| 0 <= i < items.len() ==> item_texts(items)[i] == item_json(items[i]),
        item_texts(items.push(item)) == item_texts(items).push(item_json(item)),
        items_ok(items.push(item)) <==> items_ok(items) && item_ok(item),
{
    assert(item_texts(items.push(item)) =~= item_texts(items).push(item_json(item)));
    if items_ok(items.push(item)) {
        assert(item_ok(items.push(item)[items.len() as int]));
        assert forall|i: int| 0 <= i < items.len() implies item_ok(#[trigger] items[i]) by {
            assert(item_ok(items.push(item)[i]));
        }
    }
}

/// Three texts joined: the first, a comma, the second, a comma, the third.
proof fn lemma_joined_three(x: Seq<char>, y: Seq<char>, z: Seq<char>)
    ensures
        joined(seq![x, y, z]) == x + ","@ + y + ","@ + z,
{
    let texts = seq![x, y, z];
    assert(texts.drop_last() =~= seq![x, y]);
    assert(texts.drop_last().drop_last() =~= seq![x]);
    reveal_with_fuel(joined, 4);
    assert(joined(texts) =~= x + ","@ + y + ","@ + z);
}

/// Three items added in turn stand in the document in that order, with a
/// comma between neighbours.
pub proof fn lemma_three_in_order(a: ItemView, b: ItemView, c: ItemView)
    ensures
        Seq::<ItemView>::empty().push(a).push(b).push(c) == seq![a, b, c],
        item_texts(seq![a, b, c]) == seq![item_json(a), item_json(b), item_json(c)],
        document_text(seq![a, b, c]) == "{\"items\":["@ + (item_json(a) + ","@ + item_json(b)
            + ","@ + item_json(c)) + "]}"@,
{
    assert(Seq::<ItemView>::empty().push(a).push(b).push(c) =~= seq![a, b, c]);
    assert(item_texts(seq![a, b, c]) =~= seq![item_json(a), item_json(b), item_json(c)]);
    lemma_document_shape(seq![a, b, c]);
    lemma_joined_three(item_json(a), item_json(b), item_json(c));
}

/// Serializing one tree twice gives the same outcome: both calls fail, or
/// both give the same text.
pub proof fn lemma_same_tree_same_text(
    items: Seq<ItemView>,
    first: Result<String, SerializationError>,
    second: Result<String, SerializationError>,
)
    requires
        serialized(items_ok(items), document_text(items), first),
        serialized(items_ok(items), document_text(items), second),
    ensures
        first is Ok <==> second is Ok,
        first is Ok ==> first.unwrap()@ == second.unwrap()@,
{
}

/// Whether an item's object has the key `k`: `title` always, the key of an
/// optional field where that field is present, and no other.
pub open spec fn key_present(v: ItemView, k: Seq<char>) -> bool {
    ||| k == "uid"@ && v.uid is Some
    ||| k == "title"@
    ||| k == "subtitle"@ && v.subtitle is Some
    ||| k == "arg"@ && v.arg is Some
    ||| k == "icon"@ && v.icon is Some
    ||| k == "valid"@ && v.valid is Some
    ||| k == "autocomplete"@ && v.autocomplete is Some
    ||| k == "type"@ && v.item_type is Some
    ||| k == "mods"@ && v.item_mods is Some
    ||| k == "text"@ && v.text is Some
    ||| k == "quicklookurl"@ && v.quicklookurl is Some
}

/// Whether a list of members has the key `k`, over two lists one after the
/// other.
proof fn lemma_concat_has_key(
    a: Seq<(Seq<char>, Seq<char>)>,
    b: Seq<(Seq<char>, Seq<char>)>,
    k: Seq<char>,
)
    ensures
        keys_of(a + b).contains(k) <==> keys_of(a).contains(k) || keys_of(b).contains(k),
{
    let ka = keys_of(a);
    let kb = keys_of(b);
    let kc = keys_of(a + b);
    if ka.contains(k) {
        let j = choose|j: int| 0 <= j < ka.len() && ka[j] == k;
        assert(kc[j] == k);
    }
    if kb.contains(k) {
        let j = choose|j: int| 0 <= j < kb.len() && kb[j] == k;
        assert(kc[a.len() + j] == k);
    }
    if kc.contains(k) {
        let j = choose|j: int| 0 <= j < kc.len() && kc[j] == k;
        if j < a.len() {
            assert(ka[j] == k);
        } else {
            assert(kb[j - a.len()] == k);
        }
    }
}

/// Whether a list that holds at most one member, under a known key, has the
/// key `k`.
proof fn lemma_piece_has_key(piece: Seq<(Seq<char>, Seq<char>)>, key: Seq<char>, k: Seq<char>)
    requires
        piece.len() <= 1,
        piece.len() == 1 ==> piece[0].0 == key,
    ensures
        keys_of(piece).contains(k) <==> piece.len() == 1 && k == key,
{
    if piece.len() == 1 {
        assert(keys_of(piece)[0] == key);
    }
}

/// An item's object has as many members as the item has fields present.
#[verifier::rlimit(40)]
pub proof fn lemma_member_count(v: ItemView)
    ensures
        item_keys(v).len() == 1 + v.optional_count(),
{
    let acc0 = opt_string_member("uid"@, v.uid);
    let part1 = seq![("title"@, string_text(v.title))];
    let acc1 = acc0 + part1;
    assert(acc1.len() == acc0.len() + part1.len());
    let part2 = opt_string_member("subtitle"@, v.subtitle);
    let acc2 = acc1 + part2;
    assert(acc2.len() == acc1.len() + part2.len());
    let part3 = opt_string_member("arg"@, v.arg);
    let acc3 = acc2 + part3;
    assert(acc3.len() == acc2.len() + part3.len());
    let part4 = opt_icon_member(v.icon);
    let acc4 = acc3 + part4;
    assert(acc4.len() == acc3.len() + part4.len());
    let part5 = opt_bool_member("valid"@, v.valid);
    let acc5 = acc4 + part5;
    assert(acc5.len() == acc4.len() + part5.len());
    let part6 = opt_string_member("autocomplete"@, v.autocomplete);
    let acc6 = acc5 + part6;
    assert(acc6.len() == acc5.len() + part6.len());
    let part7 = opt_item_type_member(v.item_type);
    let acc7 = acc6 + part7;
    assert(acc7.len() == acc6.len() + part7.len());
    let part8 = opt_mods_member(v.item_mods);
    let acc8 = acc7 + part8;
    assert(acc8.len() == acc7.len() + part8.len());
    let part9 = opt_text_member(v.text);
    let acc9 = acc8 + part9;
    assert(acc9.len() == acc8.len() + part9.len());
    let part10 = opt_string_member("quicklookurl"@, v.quicklookurl);
    let acc10 = acc9 + part10;
    assert(acc10.len() == acc9.len() + part10.len());
    assert(item_members(v) == acc10);
}

/// The omission rule: an item's object has the key `title`, the key of each
/// optional field that is present, and no other key.
#[verifier::rlimit(40)]
pub proof fn lemma_keys_follow_presence(v: ItemView)
    ensures
        forall|k: Seq<char>| #[trigger] item_keys(v).contains(k) <==> key_present(v, k),
{
    assert forall|k: Seq<char>| #[trigger] item_keys(v).contains(k) <==> key_present(v, k) by {
        let acc0 = opt_string_member("uid"@, v.uid);
        lemma_piece_has_key(acc0, "uid"@, k);
        let part1 = seq![("title"@, string_text(v.title))];
        let acc1 = acc0 + part1;
        lemma_piece_has_key(part1, "title"@, k);
        lemma_concat_has_key(acc0, part1, k);
        let part2 = opt_string_member("subtitle"@, v.subtitle);
        let acc2 = acc1 + part2;
        lemma_piece_has_key(part2, "subtitle"@, k);
        lemma_concat_has_key(acc1, part2, k);
        let part3 = opt_string_member("arg"@, v.arg);
        let acc3 = acc2 + part3;
        lemma_piece_has_key(part3, "arg"@, k);
        lemma_concat_has_key(acc2, part3, k);
        let part4 = opt_icon_member(v.icon);
        let acc4 = acc3 + part4;
        lemma_piece_has_key(part4, "icon"@, k);
        lemma_concat_has_key(acc3, part4, k);
        let part5 = opt_bool_member("valid"@, v.valid);
        let acc5 = acc4 + part5;
        lemma_piece_has_key(part5, "valid"@, k);
        lemma_concat_has_key(acc4, part5, k);
        let part6 = opt_string_member("autocomplete"@, v.autocomplete);
        let acc6 = acc5 + part6;
        lemma_piece_has_key(part6, "autocomplete"@, k);
        lemma_concat_has_key(acc5, part6, k);
        let part7 = opt_item_type_member(v.item_type);
        let acc7 = acc6 + part7;
        lemma_piece_has_key(part7, "type"@, k);
        lemma_concat_has_key(acc6, part7, k);
        let part8 = opt_mods_member(v.item_mods);
        let acc8 = acc7 + part8;
        lemma_piece_has_key(part8, "mods"@, k);
        lemma_concat_has_key(acc7, part8, k);
        let part9 = opt_text_member(v.text);
        let acc9 = acc8 + part9;
        lemma_piece_has_key(part9, "text"@, k);
        lemma_concat_has_key(acc8, part9, k);
        let part10 = opt_string_member("quicklookurl"@, v.quicklookurl);
        let acc10 = acc9 + part10;
        lemma_piece_has_key(part10, "quicklookurl"@, k);
        lemma_concat_has_key(acc9, part10, k);
        assert(item_members(v) == acc10);
    }
}

/// Whether the text of a value begins as no `null` does.
pub open spec fn starts_as_value(t: Seq<char>) -> bool {
    t.len() > 0 && t[0] != 'n'
}

/// Whether no member of the list has the value `null`.
pub open spec fn null_free(members: Seq<(Seq<char>, Seq<char>)>) -> bool {
    forall|i: int| 0 <= i < members.len() ==> (#[trigger] members[i]).1 != "null"@
}

/// Whether every member's value begins as no `null` does.
spec fn values_start(members: Seq<(Seq<char>, Seq<char>)>) -> bool {
    forall|i: int| 0 <= i < members.len() ==> starts_as_value((#[trigger] members[i]).1)
}

proof fn lemma_values_start_concat(a: Seq<(Seq<char>, Seq<char>)>, b: Seq<(Seq<char>, Seq<char>)>)
    requires
        values_start(a),
        values_start(b),
    ensures
        values_start(a + b),
{
    assert forall|i: int| 0 <= i < (a + b).len() implies starts_as_value(
        (#[trigger] (a + b)[i]).1,
    ) by {
        if i < a.len() {
            assert((a + b)[i] == a[i]);
        } else {
            assert((a + b)[i] == b[i - a.len()]);
        }
    }
}

proof fn lemma_values_start_null_free(members: Seq<(Seq<char>, Seq<char>)>)
    requires
        values_start(members),
    ensures
        null_free(members),
{
    reveal_strlit("null");
    assert forall|i: int| 0 <= i < members.len() implies (#[trigger] members[i]).1 != "null"@ by {
        assert(starts_as_value(members[i].1));
    }
}

/// The texts of strings, booleans and objects begin as no `null` does.
proof fn lemma_texts_start()
    ensures
        forall|s: Seq<char>| starts_as_value(#[trigger] string_text(s)),
        forall|b: bool| starts_as_value(#[trigger] bool_text(b)),
        forall|ms: Seq<(Seq<char>, Seq<char>)>| starts_as_value(#[trigger] object_text(ms)),
        forall|k: AlfredItemType| starts_as_value(#[trigger] item_type_text(k)),
        forall|k: AlfredItemIconType| starts_as_value(#[trigger] icon_type_text(k)),
{
    reveal_strlit("\"");
    reveal_strlit("{");
    reveal_strlit("true");
    reveal_strlit("false");
    reveal_strlit("\"default\"");
    reveal_strlit("\"file\"");
    reveal_strlit("\"file:skipcheck\"");
    reveal_strlit("\"fileicon\"");
    reveal_strlit("\"filetype\"");
    assert forall|s: Seq<char>| starts_as_value(#[trigger] string_text(s)) by {
        assert(string_text(s)[0] == '"');
    }
    assert forall|ms: Seq<(Seq<char>, Seq<char>)>| starts_as_value(
        #[trigger] object_text(ms),
    ) by {
        assert(object_text(ms)[0] == '{');
    }
}

/// No member of an icon's object has the value `null`.
pub proof fn lemma_icon_null_free(icon: IconView)
    ensures
        null_free(icon_members(icon)),
{
    lemma_texts_start();
    lemma_values_start_null_free(icon_members(icon));
}

/// No member of the texts' object has the value `null`.
pub proof fn lemma_text_null_free(text: TextView)
    ensures
        null_free(text_members(text)),
{
    lemma_texts_start();
    lemma_values_start_null_free(text_members(text));
}

/// No member of a modifier's object has the value `null`.
pub proof fn lemma_mod_null_free(m: ModView)
    ensures
        null_free(mod_members(m)),
{
    lemma_texts_start();
    let a = opt_bool_member("valid"@, m.valid);
    let b = opt_string_member("arg"@, m.arg);
    let c = opt_string_member("subtitle"@, m.subtitle);
    lemma_values_start_concat(a, b);
    lemma_values_start_concat(a + b, c);
    lemma_values_start_null_free(mod_members(m));
}

/// No member of the modifiers' object has the value `null`.
pub proof fn lemma_mods_null_free(mods: ModsView)
    ensures
        null_free(mods_members(mods)),
{
    lemma_texts_start();
    let a = opt_mod_member("alt"@, mods.alt);
    let b = opt_mod_member("cmd"@, mods.cmd);
    let c = opt_mod_member("ctrl"@, mods.ctrl);
    let d = opt_mod_member("shift"@, mods.shift);
    lemma_values_start_concat(a, b);
    lemma_values_start_concat(a + b, c);
    lemma_values_start_concat(a + b + c, d);
    lemma_values_start_null_free(mods_members(mods));
}

/// No member of an item's object has the value `null`, whichever fields are
/// present: a present field has the text of a string, of a boolean, of a
/// token or of an object, and an absent field has no member.
#[verifier::rlimit(40)]
pub proof fn lemma_item_null_free(v: ItemView)
    ensures
        null_free(item_members(v)),
{
    lemma_texts_start();
    let acc0 = opt_string_member("uid"@, v.uid);
    let part1 = seq![("title"@, string_text(v.title))];
    let part2 = opt_string_member("subtitle"@, v.subtitle);
    let part3 = opt_string_member("arg"@, v.arg);
    let part4 = opt_icon_member(v.icon);
    let part5 = opt_bool_member("valid"@, v.valid);
    let part6 = opt_string_member("autocomplete"@, v.autocomplete);
    let part7 = opt_item_type_member(v.item_type);
    let part8 = opt_mods_member(v.item_mods);
    let part9 = opt_text_member(v.text);
    let part10 = opt_string_member("quicklookurl"@, v.quicklookurl);
    let acc1 = acc0 + part1;
    let acc2 = acc1 + part2;
    let acc3 = acc2 + part3;
    let acc4 = acc3 + part4;
    let acc5 = acc4 + part5;
    let acc6 = acc5 + part6;
    let acc7 = acc6 + part7;
    let acc8 = acc7 + part8;
    let acc9 = acc8 + part9;
    let acc10 = acc9 + part10;
    lemma_values_start_concat(acc0, part1);
    lemma_values_start_concat(acc1, part2);
    lemma_values_start_concat(acc2, part3);
    lemma_values_start_concat(acc3, part4);
    lemma_values_start_concat(acc4, part5);
    lemma_values_start_concat(acc5, part6);
    lemma_values_start_concat(acc6, part7);
    lemma_values_start_concat(acc7, part8);
    lemma_values_start_concat(acc8, part9);
    lemma_values_start_concat(acc9, part10);
    assert(item_members(v) == acc10);
    lemma_values_start_null_free(acc10);
}

/// The item type is written under the key `type` and the modifiers under the
/// key `mods`; no key of an item's object is `item_type`, `kind`, `item_mods`
/// or `modifiers`.
pub proof fn lemma_renamed_keys(v: ItemView)
    ensures
        v.item_type is Some ==> item_keys(v).contains("type"@),
        v.item_mods is Some ==> item_keys(v).contains("mods"@),
        !item_keys(v).contains("item_type"@),
        !item_keys(v).contains("kind"@),
        !item_keys(v).contains("item_mods"@),
        !item_keys(v).contains("modifiers"@),
{
    lemma_keys_follow_presence(v);
    reveal_strlit("uid");
    reveal_strlit("title");
    reveal_strlit("subtitle");
    reveal_strlit("arg");
    reveal_strlit("icon");
    reveal_strlit("valid");
    reveal_strlit("autocomplete");
    reveal_strlit("type");
    reveal_strlit("mods");
    reveal_strlit("text");
    reveal_strlit("quicklookurl");
    reveal_strlit("item_type");
    reveal_strlit("kind");
    reveal_strlit("item_mods");
    reveal_strlit("modifiers");
    assert(!key_present(v, "item_type"@)) by {
        assert("uid"@.len() != "item_type"@.len());
        assert("title"@.len() != "item_type"@.len());
        assert("subtitle"@.len() != "item_type"@.len());
        assert("arg"@.len() != "item_type"@.len());
        assert("icon"@.len() != "item_type"@.len());
        assert("valid"@.len() != "item_type"@.len());
        assert("autocomplete"@.len() != "item_type"@.len());
        assert("type"@.len() != "item_type"@.len());
        assert("mods"@.len() != "item_type"@.len());
        assert("text"@.len() != "item_type"@.len());
        assert("quicklookurl"@.len() != "item_type"@.len());
    }
    assert(!key_present(v, "kind"@)) by {
        assert("uid"@.len() != "kind"@.len());
        assert("title"@.len() != "kind"@.len());
        assert("subtitle"@.len() != "kind"@.len());
        assert("arg"@.len() != "kind"@.len());
        assert("icon"@[0] != "kind"@[0]);
        assert("valid"@.len() != "kind"@.len());
        assert("autocomplete"@.len() != "kind"@.len());
        assert("type"@[0] != "kind"@[0]);
        assert("mods"@[0] != "kind"@[0]);
        assert("text"@[0] != "kind"@[0]);
        assert("quicklookurl"@.len() != "kind"@.len());
    }
    assert(!key_present(v, "item_mods"@)) by {
        assert("uid"@.len() != "item_mods"@.len());
        assert("title"@.len() != "item_mods"@.len());
        assert("subtitle"@.len() != "item_mods"@.len());
        assert("arg"@.len() != "item_mods"@.len());
        assert("icon"@.len() != "item_mods"@.len());
        assert("valid"@.len() != "item_mods"@.len());
        assert("autocomplete"@.len() != "item_mods"@.len());
        assert("type"@.len() != "item_mods"@.len());
        assert("mods"@.len() != "item_mods"@.len());
        assert("text"@.len() != "item_mods"@.len());
        assert("quicklookurl"@.len() != "item_mods"@.len());
    }
    assert(!key_present(v, "modifiers"@)) by {
        assert("uid"@.len() != "modifiers"@.len());
        assert("title"@.len() != "modifiers"@.len());
        assert("subtitle"@.len() != "modifiers"@.len());
        assert("arg"@.len() != "modifiers"@.len());
        assert("icon"@.len() != "modifiers"@.len());
        assert("valid"@.len() != "modifiers"@.len());
        assert("autocomplete"@.len() != "modifiers"@.len());
        assert("type"@.len() != "modifiers"@.len());
        assert("mods"@.len() != "modifiers"@.len());
        assert("text"@.len() != "modifiers"@.len());
        assert("quicklookurl"@.len() != "modifiers"@.len());
    }
}

} // verus!
