//! The nine screens of the web client and their keyboard shortcuts.

use vstd::prelude::*;

verus! {

/// A screen of the web client, in tab-bar order.
#[derive(Copy, Clone, Debug, PartialEq, Eq, Structural)]
pub enum Tab {
    Hud,
    City,
    Units,
    Tech,
    Civics,
    Diplomacy,
    Government,
    Empire,
    Victory,
}

/// The position of a tab in the bar, from 0.
pub open spec fn tab_index(t: Tab) -> int {
    match t {
        Tab::Hud => 0,
        Tab::City => 1,
        Tab::Units => 2,
        Tab::Tech => 3,
        Tab::Civics => 4,
        Tab::Diplomacy => 5,
        Tab::Government => 6,
        Tab::Empire => 7,
        Tab::Victory => 8,
    }
}

/// The tab at a position of the bar.
pub open spec fn tab_at(i: int) -> Option<Tab> {
    if i == 0 {
        Some(Tab::Hud)
    } else if i == 1 {
        Some(Tab::City)
    } else if i == 2 {
        Some(Tab::Units)
    } else if i == 3 {
        Some(Tab::Tech)
    } else if i == 4 {
        Some(Tab::Civics)
    } else if i == 5 {
        Some(Tab::Diplomacy)
    } else if i == 6 {
        Some(Tab::Government)
    } else if i == 7 {
        Some(Tab::Empire)
    } else if i == 8 {
        Some(Tab::Victory)
    } else {
        None
    }
}

impl Tab {
    /// Every tab, in bar order.
    pub fn all() -> (v: Vec<Tab>)
        ensures
            v@.len() == 9,
            forall|i: int| 0 <= i < 9 ==> tab_at(i) == Some(#[trigger] v@[i]),
    {
        let v = vec![
            Tab::Hud,
            Tab::City,
            Tab::Units,
            Tab::Tech,
            Tab::Civics,
            Tab::Diplomacy,
            Tab::Government,
            Tab::Empire,
            Tab::Victory,
        ];
        v
    }

    /// The visible label.
    pub fn label(self) -> (s: &'static str)
        ensures
            s@ == match self {
                Tab::Hud => "Map"@,
                Tab::City => "Cities"@,
                Tab::Units => "Units"@,
                Tab::Tech => "Tech"@,
                Tab::Civics => "Civics"@,
                Tab::Diplomacy => "Diplomacy"@,
                Tab::Government => "Government"@,
                Tab::Empire => "Empire"@,
                Tab::Victory => "Victory"@,
            },
    {
        match self {
            Tab::Hud => "Map",
            Tab::City => "Cities",
            Tab::Units => "Units",
            Tab::Tech => "Tech",
            Tab::Civics => "Civics",
            Tab::Diplomacy => "Diplomacy",
            Tab::Government => "Government",
            Tab::Empire => "Empire",
            Tab::Victory => "Victory",
        }
    }

    /// The screen key the page markup uses.
    pub fn key(self) -> (s: &'static str)
        ensures
            s@ == match self {
                Tab::Hud => "hud"@,
                Tab::City => "city"@,
                Tab::Units => "units"@,
                Tab::Tech => "tech"@,
                Tab::Civics => "civics"@,
                Tab::Diplomacy => "dipl"@,
                Tab::Government => "govt"@,
                Tab::Empire => "overview"@,
                Tab::Victory => "victory"@,
            },
    {
        match self {
            Tab::Hud => "hud",
            Tab::City => "city",
            Tab::Units => "units",
            Tab::Tech => "tech",
            Tab::Civics => "civics",
            Tab::Diplomacy => "dipl",
            Tab::Government => "govt",
            Tab::Empire => "overview",
            Tab::Victory => "victory",
        }
    }

    /// The 1-based keyboard shortcut: the tab's position in the bar, plus one.
    pub fn shortcut(self) -> (n: u8)
        ensures
            n == tab_index(self) + 1,
    {
        let all = Tab::all();
        let mut i: usize = 0;
        while i < all.len()
            invariant
                all@.len() == 9,
                forall|k: int| 0 <= k < 9 ==> tab_at(k) == Some(#[trigger] all@[k]),
                0 <= i <= 9,
                tab_index(self) >= i,
            decreases 9 - i,
        {
            if all[i] == self {
                assert(tab_at(i as int) == Some(self));
                return i as u8 + 1;
            }
            assert(tab_at(i as int) == Some(all@[i as int]));
            i += 1;
        }
        1
    }

    /// The tab a digit key selects: `1` to `9`, in bar order.
    pub fn from_digit(d: char) -> (t: Option<Tab>)
        ensures
            t == (if '1' <= d && d <= '9' {
                tab_at(d as int - '1' as int)
            } else {
                None
            }),
    {
        if d < '1' || d > '9' {
            return None;
        }
        let i = (d as u32 - '1' as u32) as usize;
        let all = Tab::all();
        Some(all[i])
    }
}

/// A tab's shortcut digit selects that tab again.
pub proof fn shortcut_selects_tab(t: Tab)
    ensures
        1 <= tab_index(t) + 1 <= 9,
        tab_at(tab_index(t)) == Some(t),
{
}

} // verus!
