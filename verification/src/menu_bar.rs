//! The menu bar: command groups, their items, and key handling while the
//! menu is open.
//!
//! Drawing the bar is the terminal frontend's job; the core owns the groups,
//! the wrap-around group selection, and the command each item dispatches.

use crate::keys::Key;
use crate::keys::Modifiers;
use vstd::prelude::*;
use vstd::string::StringExecFns;

verus! {

/// A command dispatched from the menu, or a routing instruction for the
/// menu itself.
#[derive(Clone, Copy, PartialEq, Eq, Structural, Debug)]
pub enum MenuCmd {
    Exit,
    About,
    NoOp,
    CloseMenu,
    Refresh,
}

pub struct MenuItem {
    pub name: String,
    pub job: MenuCmd,
}

impl MenuItem {
    pub fn new(new_name: &str, job_no: MenuCmd) -> (r: MenuItem)
        ensures
            r.name@ == new_name@,
            r.job == job_no,
    {
        MenuItem { name: String::from_str(new_name), job: job_no }
    }
}

pub struct MenuGroup {
    pub name: String,
    pub index: u16,
    pub items: Vec<MenuItem>,
    pub selected: usize,
}

impl MenuGroup {
    /// The selected item exists.
    pub open spec fn wf(&self) -> bool {
        self.selected < self.items@.len()
    }

    pub fn new(group_name: &str, idx: u16) -> (r: MenuGroup)
        ensures
            r.name@ == group_name@,
            r.index == idx,
            r.items@.len() == 0,
            r.selected == 0,
    {
        MenuGroup { name: String::from_str(group_name), index: idx, items: Vec::new(), selected: 0 }
    }

    /// The command of the currently selected item of this group.
    pub fn get_menu_cmd(&self) -> (r: MenuCmd)
        requires
            self.wf(),
        ensures
            r == self.items@[self.selected as int].job,
    {
        self.items[self.selected].job
    }

    pub fn add_item(&mut self, new_item: MenuItem)
        ensures
            final(self).items@ == old(self).items@.push(new_item),
            final(self).name == old(self).name,
            final(self).index == old(self).index,
            final(self).selected == old(self).selected,
    {
        self.items.push(new_item);
    }
}

pub struct MenuBar {
    pub groups: Vec<MenuGroup>,
}

impl MenuBar {
    /// At least one group exists (wrap-around selection needs one) and every
    /// group has a selectable item.
    pub open spec fn wf(&self) -> bool {
        &&& self.groups@.len() >= 1
        &&& forall|i: int| 0 <= i < self.groups@.len() ==> (#[trigger] self.groups@[i]).wf()
    }

    /// The default menu: a File group whose single item exits, and a Help
    /// group whose single item opens the about dialog.
    pub fn new() -> (r: MenuBar)
        ensures
            r.wf(),
            r.groups@.len() == 2,
            r.groups@[0].items@[r.groups@[0].selected as int].job == MenuCmd::Exit,
            r.groups@[1].items@[r.groups@[1].selected as int].job == MenuCmd::About,
            r.groups@[0].name@ == "File"@,
            r.groups@[1].name@ == "Help"@,
    {
        let mut menu_bar = MenuBar { groups: Vec::new() };

        let mut file_group = MenuGroup::new("File", 0);
        let exit_item = MenuItem::new("Exit", MenuCmd::Exit);
        file_group.add_item(exit_item);
        menu_bar.add_group(file_group);

        let mut help_group = MenuGroup::new("Help", 1);
        let about_item = MenuItem::new("About", MenuCmd::About);
        help_group.add_item(about_item);
        menu_bar.add_group(help_group);

        menu_bar
    }

    pub fn add_group(&mut self, new_group: MenuGroup)
        ensures
            final(self).groups@ == old(self).groups@.push(new_group),
    {
        self.groups.push(new_group);
    }

    /// The group index one step to the left of `selected`, wrapping around
    /// to the last group.
    pub open spec fn left_of(&self, selected: int) -> int {
        if selected == 0 {
            self.groups@.len() - 1
        } else {
            selected - 1
        }
    }

    /// The group index one step to the right of `selected`, wrapping around
    /// to the first group.
    pub open spec fn right_of(&self, selected: int) -> int {
        if selected == self.groups@.len() - 1 {
            0
        } else {
            selected + 1
        }
    }

    pub fn move_left(&self, selected: usize) -> (r: usize)
        requires
            self.wf(),
            selected < self.groups@.len(),
        ensures
            r == self.left_of(selected as int),
    {
        if selected == 0 {
            self.groups.len() - 1
        } else {
            selected - 1
        }
    }

    pub fn move_right(&self, selected: usize) -> (r: usize)
        requires
            self.wf(),
            selected < self.groups@.len(),
        ensures
            r == self.right_of(selected as int),
    {
        if selected == self.groups.len() - 1 {
            0
        } else {
            selected + 1
        }
    }

    /// What an open menu with group `selected` answers to a key: the command
    /// to route and the group selection afterwards.
    pub open spec fn menu_response(&self, modifier: Modifiers, code: Key, selected: int) -> (
        MenuCmd,
        int,
    )
        recommends
            self.wf(),
            0 <= selected < self.groups@.len(),
    {
        if !modifier.is_none() {
            (MenuCmd::NoOp, selected)
        } else {
            match code {
                Key::Enter => (
                    self.groups@[selected].items@[self.groups@[selected].selected as int].job,
                    selected,
                ),
                Key::Left => (MenuCmd::Refresh, self.left_of(selected)),
                Key::Right => (MenuCmd::Refresh, self.right_of(selected)),
                Key::Esc => (MenuCmd::CloseMenu, selected),
                _ => (MenuCmd::NoOp, selected),
            }
        }
    }

    /// Routes one key to the open menu. Enter yields the selected group's
    /// command; Left and Right move the selection with wrap-around and ask
    /// for a redraw; Esc asks to close the menu.
    pub fn handle_keyinput(&self, modifier: Modifiers, code: Key, selected: usize) -> (r: (
        MenuCmd,
        usize,
    ))
        requires
            self.wf(),
            selected < self.groups@.len(),
        ensures
            r.0 == self.menu_response(modifier, code, selected as int).0,
            r.1 == self.menu_response(modifier, code, selected as int).1,
            r.1 < self.groups@.len(),
    {
        if modifier.ctrl || modifier.alt || modifier.shift {
            return (MenuCmd::NoOp, selected);
        }
        match code {
            Key::Enter => (self.groups[selected].get_menu_cmd(), selected),
            Key::Left => (MenuCmd::Refresh, self.move_left(selected)),
            Key::Right => (MenuCmd::Refresh, self.move_right(selected)),
            Key::Esc => (MenuCmd::CloseMenu, selected),
            _ => (MenuCmd::NoOp, selected),
        }
    }
}

} // verus!
