use vstd::prelude::*;

verus! {

/// One entry of a submenu: the id that its events carry, and its text.
pub struct MenuItem {
    pub id: String,
    pub text: String,
}

/// A titled submenu of the main window's menu bar.
pub struct Submenu {
    pub title: String,
    pub items: Vec<MenuItem>,
}

/// The main window's menu bar, as a list of submenus from left to right.
pub struct MenuBar {
    pub submenus: Vec<Submenu>,
}

impl View for Submenu {
    type V = (Seq<char>, Seq<(Seq<char>, Seq<char>)>);

    open spec fn view(&self) -> Self::V {
        (self.title@, self.items@.map_values(|i: MenuItem| (i.id@, i.text@)))
    }
}

impl View for MenuBar {
    type V = Seq<(Seq<char>, Seq<(Seq<char>, Seq<char>)>)>;

    open spec fn view(&self) -> Self::V {
        self.submenus@.map_values(|s: Submenu| s@)
    }
}

/// The "Project" submenu, with its "New" and "Open" entries.
pub open spec fn project_menu() -> (Seq<char>, Seq<(Seq<char>, Seq<char>)>) {
    ("Project"@, seq![("project_new"@, "New"@), ("project_open"@, "Open"@)])
}

fn project_submenu() -> (r: Submenu)
    ensures
        r@ == project_menu(),
{
    let mut items: Vec<MenuItem> = Vec::new();
    items.push(MenuItem { id: "project_new".to_owned(), text: "New".to_owned() });
    items.push(MenuItem { id: "project_open".to_owned(), text: "Open".to_owned() });
    let r = Submenu { title: "Project".to_owned(), items };
    assert(r@.1 =~= project_menu().1);
    r
}

impl MenuBar {
    /// A menu bar without any submenu.
    pub fn new() -> (r: Self)
        ensures
            r@ == Seq::<(Seq<char>, Seq<(Seq<char>, Seq<char>)>)>::empty(),
    {
        let r = MenuBar { submenus: Vec::new() };
        assert(r@ =~= Seq::<(Seq<char>, Seq<(Seq<char>, Seq<char>)>)>::empty());
        r
    }
}

/// Installs the application's menus on a menu bar.
pub trait SetupMenuBar: Sized {
    fn setup_menu_bar(self) -> Self;
}

impl SetupMenuBar for MenuBar {
    /// Appends the "Project" submenu.
    fn setup_menu_bar(self) -> (r: Self)
        ensures
            r@ == self@.push(project_menu()),
    {
        let mut r = self;
        let ghost before = r@;
        r.submenus.push(project_submenu());
        assert(r@ =~= before.push(project_menu()));
        r
    }
}

/// What a menu event asks the application to do.
#[derive(Clone, Copy, Debug, PartialEq, Eq, Structural)]
pub enum MenuAction {
    NewProject,
    OpenProject,
    /// An event of an entry that this menu bar does not handle.
    Ignored,
}

pub open spec fn spec_menu_action(id: Seq<char>) -> MenuAction {
    if id == "project_new"@ {
        MenuAction::NewProject
    } else if id == "project_open"@ {
        MenuAction::OpenProject
    } else {
        MenuAction::Ignored
    }
}

/// The action for a menu event, by the id of the entry that raised it.
pub fn menu_action(id: &str) -> (r: MenuAction)
    ensures
        r == spec_menu_action(id@),
{
    let id = id.to_owned();
    if id == "project_new".to_owned() {
        MenuAction::NewProject
    } else if id == "project_open".to_owned() {
        MenuAction::OpenProject
    } else {
        MenuAction::Ignored
    }
}

} // verus!
