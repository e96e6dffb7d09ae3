//! The records of a script-filter result list, and their builders.
//!
//! Every record has a view: the same record with each string as a sequence of
//! characters. The builders say which field of the view they change.

use vstd::prelude::*;

verus! {

/// The view of an optional string.
pub open spec fn opt_chars(s: Option<String>) -> Option<Seq<char>> {
    match s {
        Some(t) => Some(t@),
        None => None,
    }
}

/// How Alfred treats an item when it is actioned.
#[derive(Debug, PartialEq, Hash)]
pub enum AlfredItemType {
    /// A normal action. Alfred assumes this where the field is absent.
    Default,
    /// The item is a file on the system.
    File,
    /// The item is a file, and Alfred does not check that it exists.
    FileSkipCheck,
}

/// How Alfred finds the icon from the icon's path.
#[derive(Debug, PartialEq, Hash)]
pub enum AlfredItemIconType {
    /// The icon of the file at the path.
    FileIcon,
    /// The icon of the file type that the path names.
    FileType,
}

/// The icon of an item.
#[derive(Debug, PartialEq, Hash)]
pub struct AlfredItemIcon {
    /// How the path is read. Absent: the path is the image itself.
    pub icon_type: Option<AlfredItemIconType>,
    /// The path, absolute or relative to the workflow folder.
    pub path: String,
}

/// An icon, with its path as a sequence of characters.
pub ghost struct IconView {
    pub icon_type: Option<AlfredItemIconType>,
    pub path: Seq<char>,
}

impl View for AlfredItemIcon {
    type V = IconView;

    open spec fn view(&self) -> IconView {
        IconView { icon_type: self.icon_type, path: self.path@ }
    }
}

/// The texts that Alfred copies or shows in large type.
#[derive(Debug, PartialEq, Hash)]
pub struct AlfredItemText {
    /// What is copied with Cmd-C.
    pub copy: Option<String>,
    /// What is shown in large type with Cmd-L.
    pub largetype: Option<String>,
}

/// The texts, each as a sequence of characters.
pub ghost struct TextView {
    pub copy: Option<Seq<char>>,
    pub largetype: Option<Seq<char>>,
}

impl View for AlfredItemText {
    type V = TextView;

    open spec fn view(&self) -> TextView {
        TextView { copy: opt_chars(self.copy), largetype: opt_chars(self.largetype) }
    }
}

/// What an item does while one modifier key is held.
#[derive(Debug, PartialEq, Hash)]
pub struct AlfredItemMod {
    /// Whether the item can be actioned with the key held.
    pub valid: Option<bool>,
    /// The argument passed on with the key held.
    pub arg: Option<String>,
    /// The subtitle shown with the key held.
    pub subtitle: Option<String>,
}

/// A modifier, with its strings as sequences of characters.
pub ghost struct ModView {
    pub valid: Option<bool>,
    pub arg: Option<Seq<char>>,
    pub subtitle: Option<Seq<char>>,
}

impl View for AlfredItemMod {
    type V = ModView;

    open spec fn view(&self) -> ModView {
        ModView {
            valid: self.valid,
            arg: opt_chars(self.arg),
            subtitle: opt_chars(self.subtitle),
        }
    }
}

/// The view of an optional modifier.
pub open spec fn opt_mod(m: Option<AlfredItemMod>) -> Option<ModView> {
    match m {
        Some(x) => Some(x@),
        None => None,
    }
}

/// The modifiers of an item, one for each of four keys.
#[derive(Debug, PartialEq, Hash)]
pub struct AlfredItemMods {
    /// Alt (Option) held.
    pub alt: Option<AlfredItemMod>,
    /// Command held.
    pub cmd: Option<AlfredItemMod>,
    /// Control held.
    pub ctrl: Option<AlfredItemMod>,
    /// Shift held.
    pub shift: Option<AlfredItemMod>,
}

/// The four modifiers, each by its view.
pub ghost struct ModsView {
    pub alt: Option<ModView>,
    pub cmd: Option<ModView>,
    pub ctrl: Option<ModView>,
    pub shift: Option<ModView>,
}

impl View for AlfredItemMods {
    type V = ModsView;

    open spec fn view(&self) -> ModsView {
        ModsView {
            alt: opt_mod(self.alt),
            cmd: opt_mod(self.cmd),
            ctrl: opt_mod(self.ctrl),
            shift: opt_mod(self.shift),
        }
    }
}

/// One row of results. Only the title is required.
#[derive(Debug, PartialEq, Hash)]
pub struct AlfredItem {
    /// An identifier by which Alfred learns the user's habits and orders rows.
    pub uid: Option<String>,
    /// The title of the row.
    pub title: String,
    /// The subtitle of the row.
    pub subtitle: Option<String>,
    /// The argument passed on when the row is actioned.
    pub arg: Option<String>,
    /// The icon of the row.
    pub icon: Option<AlfredItemIcon>,
    /// Whether the row can be actioned. Absent: it can.
    pub valid: Option<bool>,
    /// What the search field holds after auto-completion.
    pub autocomplete: Option<String>,
    /// How the row is treated when actioned.
    pub item_type: Option<AlfredItemType>,
    /// What the row does while a modifier key is held.
    pub item_mods: Option<AlfredItemMods>,
    /// The texts for copying and for large type.
    pub text: Option<AlfredItemText>,
    /// A URL for Quick Look.
    pub quicklookurl: Option<String>,
}

/// An item, with its strings as sequences of characters and its nested
/// records by their views.
pub ghost struct ItemView {
    pub uid: Option<Seq<char>>,
    pub title: Seq<char>,
    pub subtitle: Option<Seq<char>>,
    pub arg: Option<Seq<char>>,
    pub icon: Option<IconView>,
    pub valid: Option<bool>,
    pub autocomplete: Option<Seq<char>>,
    pub item_type: Option<AlfredItemType>,
    pub item_mods: Option<ModsView>,
    pub text: Option<TextView>,
    pub quicklookurl: Option<Seq<char>>,
}

impl ItemView {
    /// The item that has the given title and nothing else.
    pub open spec fn titled(title: Seq<char>) -> ItemView {
        ItemView {
            uid: None,
            title: title,
            subtitle: None,
            arg: None,
            icon: None,
            valid: None,
            autocomplete: None,
            item_type: None,
            item_mods: None,
            text: None,
            quicklookurl: None,
        }
    }

    /// How many of the ten optional fields are present.
    pub open spec fn optional_count(self) -> int {
        (if self.uid is Some { 1int } else { 0 })
        + (if self.subtitle is Some { 1int } else { 0 })
        + (if self.arg is Some { 1int } else { 0 })
        + (if self.icon is Some { 1int } else { 0 })
        + (if self.valid is Some { 1int } else { 0 })
        + (if self.autocomplete is Some { 1int } else { 0 })
        + (if self.item_type is Some { 1int } else { 0 })
        + (if self.item_mods is Some { 1int } else { 0 })
        + (if self.text is Some { 1int } else { 0 })
        + (if self.quicklookurl is Some { 1int } else { 0 })
    }
}

impl View for AlfredItem {
    type V = ItemView;

    open spec fn view(&self) -> ItemView {
        ItemView {
            uid: opt_chars(self.uid),
            title: self.title@,
            subtitle: opt_chars(self.subtitle),
            arg: opt_chars(self.arg),
            icon: match self.icon {
                Some(i) => Some(i@),
                None => None,
            },
            valid: self.valid,
            autocomplete: opt_chars(self.autocomplete),
            item_type: self.item_type,
            item_mods: match self.item_mods {
                Some(m) => Some(m@),
                None => None,
            },
            text: match self.text {
                Some(t) => Some(t@),
                None => None,
            },
            quicklookurl: opt_chars(self.quicklookurl),
        }
    }
}

/// The list of rows that Alfred shows, in the order in which they were added.
#[derive(Debug, PartialEq, Hash)]
pub struct AlfredItems {
    /// The rows.
    pub items: Vec<AlfredItem>,
}

/// The views of a sequence of items.
pub open spec fn item_views(items: Seq<AlfredItem>) -> Seq<ItemView> {
    Seq::new(items.len(), |i: int| items[i]@)
}

impl View for AlfredItems {
    type V = Seq<ItemView>;

    open spec fn view(&self) -> Seq<ItemView> {
        item_views(self.items@)
    }
}

impl Default for AlfredItems {
    /// The empty list.
    fn default() -> (r: Self)
        ensures
            r@ == Seq::<ItemView>::empty(),
    {
        let r = AlfredItems { items: Vec::new() };
        assert(r@ =~= Seq::<ItemView>::empty());
        r
    }
}

impl AlfredItems {
    /// The empty list.
    pub fn new() -> (r: Self)
        ensures
            r@ == Seq::<ItemView>::empty(),
    {
        let r = AlfredItems { items: Vec::new() };
        assert(r@ =~= Seq::<ItemView>::empty());
        r
    }

    /// Adds a row after the rows that are there. Nothing is reordered,
    /// whatever identifiers the rows carry.
    pub fn item(self, item: AlfredItem) -> (r: Self)
        ensures
            r@ == self@.push(item@),
    {
        let mut r = self;
        r.items.push(item);
        assert(r@ =~= self@.push(item@));
        r
    }
}

impl AlfredItem {
    /// The row with the given title and every other field absent.
    pub fn new(title: &str) -> (r: Self)
        ensures
            r@ == ItemView::titled(title@),
    {
        AlfredItem {
            uid: None,
            title: title.to_owned(),
            subtitle: None,
            arg: None,
            icon: None,
            valid: None,
            autocomplete: None,
            item_type: None,
            item_mods: None,
            text: None,
            quicklookurl: None,
        }
    }

    /// Sets the identifier.
    pub fn uid(self, uid: &str) -> (r: Self)
        ensures
            r@ == (ItemView { uid: Some(uid@), ..self@ }),
    {
        let mut r = self;
        r.uid = Some(uid.to_owned());
        r
    }

    /// Replaces the title.
    pub fn title(self, title: &str) -> (r: Self)
        ensures
            r@ == (ItemView { title: title@, ..self@ }),
    {
        let mut r = self;
        r.title = title.to_owned();
        r
    }

    /// Sets the subtitle.
    pub fn subtitle(self, subtitle: &str) -> (r: Self)
        ensures
            r@ == (ItemView { subtitle: Some(subtitle@), ..self@ }),
    {
        let mut r = self;
        r.subtitle = Some(subtitle.to_owned());
        r
    }

    /// Sets the argument passed on when the row is actioned.
    pub fn arg(self, arg: &str) -> (r: Self)
        ensures
            r@ == (ItemView { arg: Some(arg@), ..self@ }),
    {
        let mut r = self;
        r.arg = Some(arg.to_owned());
        r
    }

    /// Sets the icon.
    pub fn icon(self, icon: AlfredItemIcon) -> (r: Self)
        ensures
            r@ == (ItemView { icon: Some(icon@), ..self@ }),
    {
        let mut r = self;
        r.icon = Some(icon);
        r
    }

    /// Sets whether the row can be actioned.
    pub fn valid(self, valid: bool) -> (r: Self)
        ensures
            r@ == (ItemView { valid: Some(valid), ..self@ }),
    {
        let mut r = self;
        r.valid = Some(valid);
        r
    }

    /// Sets the auto-completion text.
    pub fn autocomplete(self, autocomplete: &str) -> (r: Self)
        ensures
            r@ == (ItemView { autocomplete: Some(autocomplete@), ..self@ }),
    {
        let mut r = self;
        r.autocomplete = Some(autocomplete.to_owned());
        r
    }

    /// Sets how the row is treated when actioned.
    pub fn item_type(self, item_type: AlfredItemType) -> (r: Self)
        ensures
            r@ == (ItemView { item_type: Some(item_type), ..self@ }),
    {
        let mut r = self;
        r.item_type = Some(item_type);
        r
    }

    /// Sets the modifiers.
    pub fn item_mods(self, item_mods: AlfredItemMods) -> (r: Self)
        ensures
            r@ == (ItemView { item_mods: Some(item_mods@), ..self@ }),
    {
        let mut r = self;
        r.item_mods = Some(item_mods);
        r
    }

    /// Sets the texts for copying and for large type.
    pub fn text(self, text: AlfredItemText) -> (r: Self)
        ensures
            r@ == (ItemView { text: Some(text@), ..self@ }),
    {
        let mut r = self;
        r.text = Some(text);
        r
    }

    /// Sets the Quick Look URL.
    pub fn quicklookurl(self, quicklookurl: &str) -> (r: Self)
        ensures
            r@ == (ItemView { quicklookurl: Some(quicklookurl@), ..self@ }),
    {
        let mut r = self;
        r.quicklookurl = Some(quicklookurl.to_owned());
        r
    }
}

impl AlfredItemIcon {
    /// The icon at the given path, with no type.
    pub fn new(path: &str) -> (r: Self)
        ensures
            r@ == (IconView { icon_type: None, path: path@ }),
    {
        AlfredItemIcon { icon_type: None, path: path.to_owned() }
    }

    /// Sets how the path is read.
    pub fn icon_type(self, icon_type: AlfredItemIconType) -> (r: Self)
        ensures
            r@ == (IconView { icon_type: Some(icon_type), ..self@ }),
    {
        let mut r = self;
        r.icon_type = Some(icon_type);
        r
    }

    /// Replaces the path.
    pub fn path(self, path: &str) -> (r: Self)
        ensures
            r@ == (IconView { path: path@, ..self@ }),
    {
        let mut r = self;
        r.path = path.to_owned();
        r
    }
}

impl Default for AlfredItemText {
    /// The record with every field absent.
    fn default() -> (r: Self)
        ensures
            r@ == (TextView { copy: None, largetype: None }),
    {
        AlfredItemText { copy: None, largetype: None }
    }
}
impl AlfredItemText {
    /// The record with both texts absent.
    pub fn new() -> (r: Self)
        ensures
            r@ == (TextView { copy: None, largetype: None }),
    {
        AlfredItemText { copy: None, largetype: None }
    }

    /// Sets the text that is copied.
    pub fn copy(self, copy: &str) -> (r: Self)
        ensures
            r@ == (TextView { copy: Some(copy@), ..self@ }),
    {
        let mut r = self;
        r.copy = Some(copy.to_owned());
        r
    }

    /// Sets the text shown in large type.
    pub fn largetype(self, largetype: &str) -> (r: Self)
        ensures
            r@ == (TextView { largetype: Some(largetype@), ..self@ }),
    {
        let mut r = self;
        r.largetype = Some(largetype.to_owned());
        r
    }
}

impl Default for AlfredItemMods {
    /// The record with every field absent.
    fn default() -> (r: Self)
        ensures
            r@ == (ModsView { alt: None, cmd: None, ctrl: None, shift: None }),
    {
        AlfredItemMods { alt: None, cmd: None, ctrl: None, shift: None }
    }
}
impl AlfredItemMods {
    /// The record with no modifier.
    pub fn new() -> (r: Self)
        ensures
            r@ == (ModsView { alt: None, cmd: None, ctrl: None, shift: None }),
    {
        AlfredItemMods { alt: None, cmd: None, ctrl: None, shift: None }
    }

    /// Sets the modifier for Alt (Option).
    pub fn alt(self, alt: AlfredItemMod) -> (r: Self)
        ensures
            r@ == (ModsView { alt: Some(alt@), ..self@ }),
    {
        let mut r = self;
        r.alt = Some(alt);
        r
    }

    /// Sets the modifier for Command.
    pub fn cmd(self, cmd: AlfredItemMod) -> (r: Self)
        ensures
            r@ == (ModsView { cmd: Some(cmd@), ..self@ }),
    {
        let mut r = self;
        r.cmd = Some(cmd);
        r
    }

    /// Sets the modifier for Control.
    pub fn ctrl(self, ctrl: AlfredItemMod) -> (r: Self)
        ensures
            r@ == (ModsView { ctrl: Some(ctrl@), ..self@ }),
    {
        let mut r = self;
        r.ctrl = Some(ctrl);
        r
    }

    /// Sets the modifier for Shift.
    pub fn shift(self, shift: AlfredItemMod) -> (r: Self)
        ensures
            r@ == (ModsView { shift: Some(shift@), ..self@ }),
    {
        let mut r = self;
        r.shift = Some(shift);
        r
    }
}

impl Default for AlfredItemMod {
    /// The record with every field absent.
    fn default() -> (r: Self)
        ensures
            r@ == (ModView { valid: None, arg: None, subtitle: None }),
    {
        AlfredItemMod { valid: None, arg: None, subtitle: None }
    }
}
impl AlfredItemMod {
    /// The modifier with every field absent.
    pub fn new() -> (r: Self)
        ensures
            r@ == (ModView { valid: None, arg: None, subtitle: None }),
    {
        AlfredItemMod { valid: None, arg: None, subtitle: None }
    }

    /// Sets whether the row can be actioned with the key held.
    pub fn valid(self, valid: bool) -> (r: Self)
        ensures
            r@ == (ModView { valid: Some(valid), ..self@ }),
    {
        let mut r = self;
        r.valid = Some(valid);
        r
    }

    /// Sets the argument passed on with the key held.
    pub fn arg(self, arg: &str) -> (r: Self)
        ensures
            r@ == (ModView { arg: Some(arg@), ..self@ }),
    {
        let mut r = self;
        r.arg = Some(arg.to_owned());
        r
    }

    /// Sets the subtitle shown with the key held.
    pub fn subtitle(self, subtitle: &str) -> (r: Self)
        ensures
            r@ == (ModView { subtitle: Some(subtitle@), ..self@ }),
    {
        let mut r = self;
        r.subtitle = Some(subtitle.to_owned());
        r
    }
}

} // verus!
