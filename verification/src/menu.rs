//! The static menu bar and its declaration.
//!
//! The menu is declared once at startup and never changes: an About entry
//! first, then an Edit submenu (Undo, Redo, a separator, Clear Grid), then a
//! View submenu (Reset View). Every item carries a stable, namespaced string
//! id; the host normalizes the abstract `CmdOrCtrl` modifier per platform.

use vstd::prelude::*;

verus! {

/// Mathematical model of a menu item: its id, label and optional
/// accelerator, as character sequences.
#[verifier::ext_equal]
pub struct ItemModel {
    pub id: Seq<char>,
    pub label: Seq<char>,
    pub accelerator: Option<Seq<char>>,
}

/// Mathematical model of one entry of a submenu.
#[verifier::ext_equal]
pub enum EntryModel {
    Item(ItemModel),
    Separator,
}

/// Mathematical model of a named submenu: its title and its entries in
/// declaration order.
#[verifier::ext_equal]
pub struct SubmenuModel {
    pub title: Seq<char>,
    pub entries: Seq<EntryModel>,
}

/// Mathematical model of one top-level entry of the menu bar: the
/// predefined About entry (with the application name it shows) or a submenu.
#[verifier::ext_equal]
pub enum TopModel {
    About(Seq<char>),
    Sub(SubmenuModel),
}

/// Mathematical model of the whole menu bar, in declaration order.
#[verifier::ext_equal]
pub struct MenuModel {
    pub entries: Seq<TopModel>,
}

/// A single clickable menu entry: a unique, dot-namespaced id, a label, and
/// an optional accelerator key combination.
pub struct MenuItem {
    pub id: String,
    pub label: String,
    pub accelerator: Option<String>,
}

/// One entry of a submenu: an item or a visual separator.
pub enum MenuEntry {
    Item(MenuItem),
    Separator,
}

/// A named submenu: an ordered sequence of entries.
pub struct Submenu {
    pub title: String,
    pub entries: Vec<MenuEntry>,
}

/// One top-level entry of the menu bar.
pub enum TopEntry {
    About(String),
    Sub(Submenu),
}

/// The whole menu bar: an ordered sequence of top-level entries.
pub struct Menu {
    pub entries: Vec<TopEntry>,
}

impl View for MenuItem {
    type V = ItemModel;

    open spec fn view(&self) -> ItemModel {
        ItemModel {
            id: self.id@,
            label: self.label@,
            accelerator: match self.accelerator {
                Some(a) => Some(a@),
                None => None,
            },
        }
    }
}

impl View for MenuEntry {
    type V = EntryModel;

    open spec fn view(&self) -> EntryModel {
        match self {
            MenuEntry::Item(i) => EntryModel::Item(i@),
            MenuEntry::Separator => EntryModel::Separator,
        }
    }
}

impl View for Submenu {
    type V = SubmenuModel;

    open spec fn view(&self) -> SubmenuModel {
        SubmenuModel { title: self.title@, entries: self.entries@.map_values(|e: MenuEntry| e@) }
    }
}

impl View for TopEntry {
    type V = TopModel;

    open spec fn view(&self) -> TopModel {
        match self {
            TopEntry::About(name) => TopModel::About(name@),
            TopEntry::Sub(sm) => TopModel::Sub(sm@),
        }
    }
}

impl View for Menu {
    type V = MenuModel;

    open spec fn view(&self) -> MenuModel {
        MenuModel { entries: self.entries@.map_values(|t: TopEntry| t@) }
    }
}

/// The Undo item: history operation, bound to `CmdOrCtrl+Z`.
pub open spec fn undo_item() -> ItemModel {
    ItemModel { id: "edit:undo"@, label: "Undo"@, accelerator: Some("CmdOrCtrl+Z"@) }
}

/// The Redo item: history operation, bound to `CmdOrCtrl+Shift+Z`.
pub open spec fn redo_item() -> ItemModel {
    ItemModel { id: "edit:redo"@, label: "Redo"@, accelerator: Some("CmdOrCtrl+Shift+Z"@) }
}

/// The Clear Grid item: destructive operation, deliberately without an
/// accelerator.
pub open spec fn clear_item() -> ItemModel {
    ItemModel { id: "edit:clear"@, label: "Clear Grid"@, accelerator: None }
}

/// The Reset View item, bound to `CmdOrCtrl+0`.
pub open spec fn reset_view_item() -> ItemModel {
    ItemModel { id: "view:reset"@, label: "Reset View"@, accelerator: Some("CmdOrCtrl+0"@) }
}

/// The application name shown by the predefined About entry.
pub open spec fn about_name() -> Seq<char> {
    "binblock++"@
}

/// The Edit submenu: Undo and Redo, a separator (grouping the reversible
/// history operations apart from the destructive one), then Clear Grid.
pub open spec fn edit_submenu() -> SubmenuModel {
    SubmenuModel {
        title: "Edit"@,
        entries: seq![
            EntryModel::Item(undo_item()),
            EntryModel::Item(redo_item()),
            EntryModel::Separator,
            EntryModel::Item(clear_item()),
        ],
    }
}

/// The View submenu: Reset View alone.
pub open spec fn view_submenu() -> SubmenuModel {
    SubmenuModel { title: "View"@, entries: seq![EntryModel::Item(reset_view_item())] }
}

/// The one menu bar this application ever declares: About first, then Edit,
/// then View — fixed order, not configurable.
pub open spec fn expected_menu() -> MenuModel {
    MenuModel {
        entries: seq![
            TopModel::About(about_name()),
            TopModel::Sub(edit_submenu()),
            TopModel::Sub(view_submenu()),
        ],
    }
}

/// The item ids one submenu entry exposes: one for an item, none for a
/// separator.
pub open spec fn entry_ids(e: EntryModel) -> Seq<Seq<char>> {
    match e {
        EntryModel::Item(i) => seq![i.id],
        EntryModel::Separator => seq![],
    }
}

/// The item ids a sequence of submenu entries exposes, in order.
pub open spec fn entries_ids(es: Seq<EntryModel>) -> Seq<Seq<char>>
    decreases es.len(),
{
    if es.len() == 0 {
        seq![]
    } else {
        entry_ids(es.first()) + entries_ids(es.drop_first())
    }
}

/// The item ids one top-level entry exposes: the About entry exposes none.
pub open spec fn top_ids(t: TopModel) -> Seq<Seq<char>> {
    match t {
        TopModel::About(_) => seq![],
        TopModel::Sub(sm) => entries_ids(sm.entries),
    }
}

/// The item ids a sequence of top-level entries exposes, in order.
pub open spec fn tops_ids(ts: Seq<TopModel>) -> Seq<Seq<char>>
    decreases ts.len(),
{
    if ts.len() == 0 {
        seq![]
    } else {
        top_ids(ts.first()) + tops_ids(ts.drop_first())
    }
}

/// All item ids a menu exposes, in menu order.
pub open spec fn menu_item_ids(m: MenuModel) -> Seq<Seq<char>> {
    tops_ids(m.entries)
}

/// Whether a submenu exposes the item `i`.
pub open spec fn sub_has_item(sm: SubmenuModel, i: ItemModel) -> bool {
    exists|e: int| 0 <= e < sm.entries.len() && sm.entries[e] == EntryModel::Item(i)
}

/// Whether the menu `m` exposes the item `i` in one of its submenus.
pub open spec fn menu_has_item(m: MenuModel, i: ItemModel) -> bool {
    exists|t: int|
        #![trigger m.entries[t]]
        {
            &&& 0 <= t < m.entries.len()
            &&& m.entries[t] matches TopModel::Sub(sm)
            &&& sub_has_item(sm, i)
        }
}

/// The accelerator binding this layer declares per item id: Undo, Redo and
/// Reset View each have one; everything else (Clear Grid in particular) has
/// none.
pub open spec fn declared_accelerator(id: Seq<char>) -> Option<Seq<char>> {
    if id == "edit:undo"@ {
        Some("CmdOrCtrl+Z"@)
    } else if id == "edit:redo"@ {
        Some("CmdOrCtrl+Shift+Z"@)
    } else if id == "view:reset"@ {
        Some("CmdOrCtrl+0"@)
    } else {
        None
    }
}

/// Law: the declared menu bar exposes exactly the four item ids, in the
/// fixed order About, Edit { Undo, Redo, separator, Clear Grid },
/// View { Reset View }.
pub proof fn lemma_menu_ids(m: MenuModel)
    requires
        m == expected_menu(),
    ensures
        m.entries.len() == 3,
        m.entries[0] == TopModel::About(about_name()),
        m.entries[1] == TopModel::Sub(edit_submenu()),
        m.entries[2] == TopModel::Sub(view_submenu()),
        menu_item_ids(m) == seq!["edit:undo"@, "edit:redo"@, "edit:clear"@, "view:reset"@],
{
    reveal_with_fuel(tops_ids, 5);
    reveal_with_fuel(entries_ids, 6);
    assert(entries_ids(edit_submenu().entries) =~= seq![
        "edit:undo"@,
        "edit:redo"@,
        "edit:clear"@,
    ]);
    assert(entries_ids(view_submenu().entries) =~= seq!["view:reset"@]);
    assert(menu_item_ids(m) =~= seq!["edit:undo"@, "edit:redo"@, "edit:clear"@, "view:reset"@]);
}

/// Law: every item the declared menu bar exposes carries exactly its
/// declared accelerator binding.
pub proof fn lemma_accelerators(m: MenuModel, i: ItemModel)
    requires
        m == expected_menu(),
        menu_has_item(m, i),
    ensures
        i.accelerator == declared_accelerator(i.id),
{
    reveal_strlit("edit:undo");
    reveal_strlit("edit:redo");
    reveal_strlit("edit:clear");
    reveal_strlit("view:reset");
    assert(("edit:undo"@)[5] != ("edit:redo"@)[5]);
    assert(("edit:clear"@)[0] != ("view:reset"@)[0]);
    assert(("edit:undo"@).len() != ("edit:clear"@).len());
    assert(("edit:redo"@).len() != ("edit:clear"@).len());
    let t = choose|t: int|
        #![trigger m.entries[t]]
        {
            &&& 0 <= t < m.entries.len()
            &&& m.entries[t] matches TopModel::Sub(sm)
            &&& sub_has_item(sm, i)
        };
    if t == 1 {
        assert(sub_has_item(edit_submenu(), i));
        let e = choose|e: int|
            0 <= e < edit_submenu().entries.len() && edit_submenu().entries[e]
                == EntryModel::Item(i);
        if e == 0 {
            assert(i == undo_item());
        } else if e == 1 {
            assert(i == redo_item());
        } else if e == 2 {
            assert(edit_submenu().entries[2] == EntryModel::Separator);
            assert(false);
        } else {
            assert(i == clear_item());
        }
    } else {
        assert(t == 2);
        assert(sub_has_item(view_submenu(), i));
        let e = choose|e: int|
            0 <= e < view_submenu().entries.len() && view_submenu().entries[e]
                == EntryModel::Item(i);
        assert(i == reset_view_item());
    }
}

/// Construct the static menu bar. The result is exactly the declared menu:
/// same entries, same order, same ids, labels and accelerators.
pub fn build_menu() -> (m: Menu)
    ensures
        m@ == expected_menu(),
{
    let undo = MenuItem {
        id: "edit:undo".to_owned(),
        label: "Undo".to_owned(),
        accelerator: Some("CmdOrCtrl+Z".to_owned()),
    };
    let redo = MenuItem {
        id: "edit:redo".to_owned(),
        label: "Redo".to_owned(),
        accelerator: Some("CmdOrCtrl+Shift+Z".to_owned()),
    };
    let clear = MenuItem {
        id: "edit:clear".to_owned(),
        label: "Clear Grid".to_owned(),
        accelerator: None,
    };
    let reset_view = MenuItem {
        id: "view:reset".to_owned(),
        label: "Reset View".to_owned(),
        accelerator: Some("CmdOrCtrl+0".to_owned()),
    };

    let mut edit_entries: Vec<MenuEntry> = Vec::new();
    edit_entries.push(MenuEntry::Item(undo));
    edit_entries.push(MenuEntry::Item(redo));
    edit_entries.push(MenuEntry::Separator);
    edit_entries.push(MenuEntry::Item(clear));
    let edit = Submenu { title: "Edit".to_owned(), entries: edit_entries };

    let mut view_entries: Vec<MenuEntry> = Vec::new();
    view_entries.push(MenuEntry::Item(reset_view));
    let view = Submenu { title: "View".to_owned(), entries: view_entries };

    let mut entries: Vec<TopEntry> = Vec::new();
    entries.push(TopEntry::About("binblock++".to_owned()));
    entries.push(TopEntry::Sub(edit));
    entries.push(TopEntry::Sub(view));
    let m = Menu { entries };

    proof {
        assert(m@.entries[1]->Sub_0.entries =~= edit_submenu().entries);
        assert(m@.entries[2]->Sub_0.entries =~= view_submenu().entries);
        assert(m@ =~~= expected_menu());
    }
    m
}

} // verus!
