//! The menu tree and the provisioning of its "New Window" command.
use vstd::prelude::*;

verus! {

/// A leaf command of a menu.
#[derive(Clone, Debug, PartialEq, Eq)]
pub struct MenuCommand {
    /// The identifier that activation events carry.
    pub id: String,
    pub text: String,
    pub accelerator: String,
}

/// A submenu of the top-level menu, owning its leaf commands.
#[derive(Clone, Debug, PartialEq, Eq)]
pub struct Submenu {
    pub text: String,
    pub items: Vec<MenuCommand>,
}

/// A top-level menu, owning its submenus.
#[derive(Clone, Debug, PartialEq, Eq)]
pub struct Menu {
    pub submenus: Vec<Submenu>,
}

pub struct CommandView {
    pub id: Seq<char>,
    pub text: Seq<char>,
    pub accelerator: Seq<char>,
}

pub struct SubmenuView {
    pub text: Seq<char>,
    pub items: Seq<CommandView>,
}

pub struct MenuView {
    pub submenus: Seq<SubmenuView>,
}

impl View for MenuCommand {
    type V = CommandView;

    open spec fn view(&self) -> CommandView {
        CommandView { id: self.id@, text: self.text@, accelerator: self.accelerator@ }
    }
}

impl View for Submenu {
    type V = SubmenuView;

    open spec fn view(&self) -> SubmenuView {
        SubmenuView { text: self.text@, items: self.items@.map_values(|c: MenuCommand| c@) }
    }
}

impl View for Menu {
    type V = MenuView;

    open spec fn view(&self) -> MenuView {
        MenuView { submenus: self.submenus@.map_values(|s: Submenu| s@) }
    }
}

/// Where the handler of menu events listens.
#[derive(Clone, Copy, Debug, PartialEq, Eq)]
pub enum HandlerScope {
    /// Events from the menus of every window.
    Application,
    /// Events from the menu of the main window only.
    MainWindow,
}

/// The menu to show and where its events are heard.
#[derive(Clone, Debug, PartialEq, Eq)]
pub struct Provisioned {
    pub menu: Menu,
    pub scope: HandlerScope,
    /// The index of the "File" submenu that was extended, when a menu existed.
    pub file_index: Option<usize>,
}

/// The existing menu offers no single "File" submenu to extend.
#[derive(Clone, Copy, Debug, PartialEq, Eq)]
pub enum MenuDiscoveryError {
    /// No top-level submenu is titled "File".
    FileMenuMissing,
    /// More than one top-level submenu is titled "File".
    FileMenuAmbiguous,
}

/// The identifier of the "New Window" command.
pub open spec fn new_window_id() -> Seq<char> {
    "new_window"@
}

pub open spec fn new_window_text() -> Seq<char> {
    "New Window"@
}

pub open spec fn file_text() -> Seq<char> {
    "File"@
}

/// The "New Window" command added to a menu that already exists.
pub open spec fn added_command() -> CommandView {
    CommandView { id: new_window_id(), text: new_window_text(), accelerator: "CmdOrCtrl+n"@ }
}

/// The "New Window" command of a menu built from scratch.
pub open spec fn built_command() -> CommandView {
    CommandView { id: new_window_id(), text: new_window_text(), accelerator: "Ctrl+N"@ }
}

/// The menu built when none exists: one "File" submenu holding the one
/// "New Window" command.
pub open spec fn built_menu() -> MenuView {
    MenuView { submenus: seq![SubmenuView { text: file_text(), items: seq![built_command()] }] }
}

pub open spec fn is_file_menu(s: SubmenuView) -> bool {
    s.text == file_text()
}

/// `k` is the index of the only "File" submenu among `subs`.
pub open spec fn sole_file_menu(subs: Seq<SubmenuView>, k: int) -> bool {
    &&& 0 <= k < subs.len()
    &&& is_file_menu(subs[k])
    &&& forall|j: int| 0 <= j < subs.len() && j != k ==> !is_file_menu(#[trigger] subs[j])
}

/// `m` extended with the "New Window" command at the head of its "File"
/// submenu at index `k`.
pub open spec fn extended_menu(m: MenuView, k: int) -> MenuView {
    MenuView {
        submenus: m.submenus.update(
            k,
            SubmenuView {
                text: m.submenus[k].text,
                items: seq![added_command()] + m.submenus[k].items,
            },
        ),
    }
}

/// The "New Window" command for a menu that already exists.
pub fn new_window_menu_item() -> (r: MenuCommand)
    ensures
        r@ == added_command(),
{
    MenuCommand {
        id: String::from_str("new_window"),
        text: String::from_str("New Window"),
        accelerator: String::from_str("CmdOrCtrl+n"),
    }
}

/// A menu holding one "File" submenu with the "New Window" command.
pub fn file_menu() -> (r: Menu)
    ensures
        r@ == built_menu(),
{
    let item = MenuCommand {
        id: String::from_str("new_window"),
        text: String::from_str("New Window"),
        accelerator: String::from_str("Ctrl+N"),
    };
    let mut items: Vec<MenuCommand> = Vec::new();
    items.push(item);
    let file = Submenu { text: String::from_str("File"), items };
    let mut submenus: Vec<Submenu> = Vec::new();
    submenus.push(file);
    let r = Menu { submenus };
    assert(r@.submenus[0].items =~= built_menu().submenus[0].items);
    assert(r@.submenus =~= built_menu().submenus);
    r
}

/// The index of the first submenu titled "File" at or after `from`.
fn find_file_menu(subs: &Vec<Submenu>, from: usize) -> (r: Option<usize>)
    requires
        from <= subs.len(),
    ensures
        match r {
            Some(k) => from <= k < subs.len() && is_file_menu(subs@[k as int]@) && forall|j: int|
                from <= j < k ==> !is_file_menu(#[trigger] subs@[j]@),
            None => forall|j: int| from <= j < subs.len() ==> !is_file_menu(#[trigger] subs@[j]@),
        },
{
    let file = String::from_str("File");
    let mut i: usize = from;
    while i < subs.len()
        invariant
            from <= i <= subs.len(),
            file@ == file_text(),
            forall|j: int| from <= j < i ==> !is_file_menu(#[trigger] subs@[j]@),
        decreases subs.len() - i,
    {
        if subs[i].text == file {
            return Some(i);
        }
        i = i + 1;
    }
    None
}

/// What provisioning `existing` gives: for no menu, the built menu heard on
/// the main window; for a menu with a sole "File" submenu, that menu extended
/// and heard application-wide; otherwise the discovery error that says why.
pub open spec fn provision_outcome(existing: Option<Menu>, r: Result<Provisioned, MenuDiscoveryError>) -> bool {
    match existing {
        None => r matches Ok(p) && p.menu@ == built_menu() && p.scope == HandlerScope::MainWindow
            && p.file_index is None,
        Some(m) => match r {
            Ok(p) => p.file_index matches Some(k) && sole_file_menu(m@.submenus, k as int) && p.menu@
                == extended_menu(m@, k as int) && p.scope == HandlerScope::Application,
            Err(MenuDiscoveryError::FileMenuMissing) => forall|j: int|
                0 <= j < m@.submenus.len() ==> !is_file_menu(#[trigger] m@.submenus[j]),
            Err(MenuDiscoveryError::FileMenuAmbiguous) => exists|i: int, j: int|
                0 <= i < j < m@.submenus.len() && is_file_menu(#[trigger] m@.submenus[i])
                    && is_file_menu(#[trigger] m@.submenus[j]),
        },
    }
}

/// Makes sure the menu offers a "New Window" command. An existing menu gets
/// the command at the head of its only "File" submenu, and its events are
/// heard application-wide. Without a menu, a new one holding just that
/// command is built for the main window, whose events alone are heard.
pub fn provision_menu(existing: Option<Menu>) -> (r: Result<Provisioned, MenuDiscoveryError>)
    ensures
        provision_outcome(existing, r),
{
    match existing {
        None => Ok(Provisioned { menu: file_menu(), scope: HandlerScope::MainWindow, file_index: None }),
        Some(m) => {
            let mut menu = m;
            let k = match find_file_menu(&menu.submenus, 0) {
                Some(k) => k,
                None => {
                    return Err(MenuDiscoveryError::FileMenuMissing);
                },
            };
            match find_file_menu(&menu.submenus, k + 1) {
                Some(j) => {
                    assert(is_file_menu(menu@.submenus[k as int]));
                    assert(is_file_menu(menu@.submenus[j as int]));
                    return Err(MenuDiscoveryError::FileMenuAmbiguous);
                },
                None => {},
            }
            let ghost before = menu@;
            let mut file = menu.submenus.remove(k);
            file.items.insert(0, new_window_menu_item());
            menu.submenus.insert(k, file);
            assert(menu@.submenus[k as int].items =~= seq![added_command()]
                + before.submenus[k as int].items);
            assert(menu@.submenus =~= extended_menu(before, k as int).submenus);
            assert(sole_file_menu(before.submenus, k as int));
            Ok(Provisioned { menu, scope: HandlerScope::Application, file_index: Some(k) })
        },
    }
}

} // verus!
