use vstd::prelude::*;

verus! {

/// The entries of the start menu, in display order.
#[derive(Clone, Copy, PartialEq, Eq, Structural, Debug)]
pub enum StartMenuItems {
    StartGame,
    ContinueGame,
    BonusMenu,
    Options,
    Exit,
}

impl StartMenuItems {
    /// The display position of this entry, counted from the top.
    pub open spec fn spec_index(self) -> u8 {
        match self {
            StartMenuItems::StartGame => 0,
            StartMenuItems::ContinueGame => 1,
            StartMenuItems::BonusMenu => 2,
            StartMenuItems::Options => 3,
            StartMenuItems::Exit => 4,
        }
    }

    /// The entry at a display position; anything past the last entry falls
    /// back to the first.
    pub open spec fn spec_from_u8(v: u8) -> StartMenuItems {
        if v == 1 {
            StartMenuItems::ContinueGame
        } else if v == 2 {
            StartMenuItems::BonusMenu
        } else if v == 3 {
            StartMenuItems::Options
        } else if v == 4 {
            StartMenuItems::Exit
        } else {
            StartMenuItems::StartGame
        }
    }

    pub fn from_u8(v: u8) -> (r: Self)
        ensures
            r == Self::spec_from_u8(v),
    {
        match v {
            1 => Self::ContinueGame,
            2 => Self::BonusMenu,
            3 => Self::Options,
            4 => Self::Exit,
            _ => Self::StartGame,
        }
    }

    pub fn to_u8(self) -> (r: u8)
        ensures
            r == self.spec_index(),
    {
        match self {
            StartMenuItems::StartGame => 0,
            StartMenuItems::ContinueGame => 1,
            StartMenuItems::BonusMenu => 2,
            StartMenuItems::Options => 3,
            StartMenuItems::Exit => 4,
        }
    }

    /// The entry above this one, wrapping from the first to the last.
    pub open spec fn spec_prev(self) -> StartMenuItems {
        Self::spec_from_u8(((self.spec_index() + 4) % 5) as u8)
    }

    /// The entry below this one, wrapping from the last to the first.
    pub open spec fn spec_next(self) -> StartMenuItems {
        Self::spec_from_u8(((self.spec_index() + 1) % 5) as u8)
    }
}

/// The cursor of the start menu: which entry is highlighted.
#[derive(Clone, Copy, PartialEq, Eq, Structural, Debug)]
pub struct StartMenu {
    pub item: StartMenuItems,
}

impl StartMenu {
    /// The menu opens with the first entry highlighted.
    pub fn new() -> (r: Self)
        ensures
            r.item == StartMenuItems::StartGame,
    {
        Self { item: StartMenuItems::StartGame }
    }

    /// Move the highlight one entry up, wrapping at the top.
    pub fn prev(&mut self)
        ensures
            final(self).item == old(self).item.spec_prev(),
    {
        let mut v = self.item.to_u8();
        if v == 0 {
            v = 5;
        }
        v -= 1;
        self.item = StartMenuItems::from_u8(v);
    }

    /// Move the highlight one entry down, wrapping at the bottom.
    pub fn next(&mut self)
        ensures
            final(self).item == old(self).item.spec_next(),
    {
        let mut v = self.item.to_u8() + 1;
        if v > 4 {
            v = 0;
        }
        self.item = StartMenuItems::from_u8(v);
    }
}

/// A keyboard event the menu reacts to.
#[derive(Clone, Copy, PartialEq, Eq, Structural, Debug)]
pub enum MenuInput {
    Up,
    Down,
    Confirm,
}

/// React to one menu key release: `Up` and `Down` move the highlight with
/// wrap-around, `Confirm` leaves it in place. The result says whether the
/// game should start: only a `Confirm` on the first entry starts it.
pub fn menu_step(menu: &mut StartMenu, input: MenuInput) -> (start: bool)
    ensures
        final(menu).item == (match input {
            MenuInput::Up => old(menu).item.spec_prev(),
            MenuInput::Down => old(menu).item.spec_next(),
            MenuInput::Confirm => old(menu).item,
        }),
        start == (input == MenuInput::Confirm && old(menu).item == StartMenuItems::StartGame),
{
    match input {
        MenuInput::Up => {
            menu.prev();
            false
        },
        MenuInput::Down => {
            menu.next();
            false
        },
        MenuInput::Confirm => {
            matches!(menu.item, StartMenuItems::StartGame)
        },
    }
}

/// A `(left, top)` pixel offset on the 640 x 480 menu design; the host
/// converts it to its own units.
#[derive(Clone, Copy, PartialEq, Eq, Structural, Debug)]
pub struct MenuPos {
    pub left: u32,
    pub top: u32,
}

/// Where each highlight rectangle sits on the menu design.
#[derive(Clone, Copy, PartialEq, Eq, Structural, Debug)]
pub struct SelectPosition {
    pub start_game: MenuPos,
    pub continue_game: MenuPos,
    pub bonus_menu: MenuPos,
    pub options: MenuPos,
    pub exit: MenuPos,
}

impl Default for SelectPosition {
    /// The five entries share a left edge and are stacked 32 pixels apart.
    fn default() -> (r: Self)
        ensures
            r.start_game == (MenuPos { left: 93, top: 206 }),
            r.continue_game == (MenuPos { left: 93, top: 238 }),
            r.bonus_menu == (MenuPos { left: 93, top: 270 }),
            r.options == (MenuPos { left: 93, top: 302 }),
            r.exit == (MenuPos { left: 93, top: 334 }),
    {
        SelectPosition {
            start_game: MenuPos { left: 93, top: 206 },
            continue_game: MenuPos { left: 93, top: 238 },
            bonus_menu: MenuPos { left: 93, top: 270 },
            options: MenuPos { left: 93, top: 302 },
            exit: MenuPos { left: 93, top: 334 },
        }
    }
}

impl SelectPosition {
    /// The highlight position for a menu entry.
    pub fn get_value(&self, v: &StartMenuItems) -> (r: MenuPos)
        ensures
            r == (match v {
                StartMenuItems::StartGame => self.start_game,
                StartMenuItems::ContinueGame => self.continue_game,
                StartMenuItems::BonusMenu => self.bonus_menu,
                StartMenuItems::Options => self.options,
                StartMenuItems::Exit => self.exit,
            }),
    {
        match v {
            StartMenuItems::StartGame => self.start_game,
            StartMenuItems::ContinueGame => self.continue_game,
            StartMenuItems::BonusMenu => self.bonus_menu,
            StartMenuItems::Options => self.options,
            StartMenuItems::Exit => self.exit,
        }
    }
}

} // verus!
