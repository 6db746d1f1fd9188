//! The tab registry: a fixed, ordered set of tabs, each with a display name,
//! a content text and a highlight palette, and the saturating `next` /
//! `previous` navigation over them.

use vstd::prelude::*;

verus! {

/// Number of tabs in the registry.
pub const NUM_TABS: usize = 6;

/// One tab of the fixed registry, identified by its position.
#[derive(Clone, Copy, Debug, PartialEq, Eq, Structural)]
pub enum SelectedTab {
    Tab1,
    Tab2,
    Tab3,
    Tab4,
    Tab5,
    Tab6,
}

/// The highlight palette a tab is drawn with.
#[derive(Clone, Copy, Debug, PartialEq, Eq, Structural)]
pub enum TabPalette {
    Blue,
    Emerald,
    Indigo,
    Red,
}

impl SelectedTab {
    /// The tab's position in the registry, counted from zero.
    pub open spec fn spec_index(self) -> int {
        match self {
            SelectedTab::Tab1 => 0,
            SelectedTab::Tab2 => 1,
            SelectedTab::Tab3 => 2,
            SelectedTab::Tab4 => 3,
            SelectedTab::Tab5 => 4,
            SelectedTab::Tab6 => 5,
        }
    }

    /// The tab at a given registry position.
    pub open spec fn spec_from_index(i: int) -> SelectedTab {
        if i == 0 {
            SelectedTab::Tab1
        } else if i == 1 {
            SelectedTab::Tab2
        } else if i == 2 {
            SelectedTab::Tab3
        } else if i == 3 {
            SelectedTab::Tab4
        } else if i == 4 {
            SelectedTab::Tab5
        } else {
            SelectedTab::Tab6
        }
    }

    /// The tab after this one, saturating at the last tab (no wraparound).
    pub open spec fn spec_next(self) -> SelectedTab {
        if self.spec_index() + 1 < NUM_TABS {
            Self::spec_from_index(self.spec_index() + 1)
        } else {
            self
        }
    }

    /// The tab before this one, saturating at the first tab (no wraparound).
    pub open spec fn spec_previous(self) -> SelectedTab {
        if self.spec_index() > 0 {
            Self::spec_from_index(self.spec_index() - 1)
        } else {
            self
        }
    }

    pub fn index(self) -> (r: usize)
        ensures
            r == self.spec_index(),
            r < NUM_TABS,
    {
        match self {
            SelectedTab::Tab1 => 0,
            SelectedTab::Tab2 => 1,
            SelectedTab::Tab3 => 2,
            SelectedTab::Tab4 => 3,
            SelectedTab::Tab5 => 4,
            SelectedTab::Tab6 => 5,
        }
    }

    pub fn from_index(i: usize) -> (r: SelectedTab)
        requires
            i < NUM_TABS,
        ensures
            r == Self::spec_from_index(i as int),
    {
        if i == 0 {
            SelectedTab::Tab1
        } else if i == 1 {
            SelectedTab::Tab2
        } else if i == 2 {
            SelectedTab::Tab3
        } else if i == 3 {
            SelectedTab::Tab4
        } else if i == 4 {
            SelectedTab::Tab5
        } else {
            SelectedTab::Tab6
        }
    }

    /// Advance to the next tab; at the last tab this is a no-op.
    pub fn next(self) -> (r: Self)
        ensures
            r == self.spec_next(),
    {
        let i: usize = self.index();
        if i + 1 < NUM_TABS {
            Self::from_index(i + 1)
        } else {
            self
        }
    }

    /// Go back to the previous tab; at the first tab this is a no-op.
    pub fn previous(self) -> (r: Self)
        ensures
            r == self.spec_previous(),
    {
        let i: usize = self.index();
        if i > 0 {
            Self::from_index(i - 1)
        } else {
            self
        }
    }

    /// The tab's display name.
    pub open spec fn spec_display_name(self) -> Seq<char> {
        match self {
            SelectedTab::Tab1 => "base64"@,
            SelectedTab::Tab2 => "Hex"@,
            SelectedTab::Tab3 => "XOR"@,
            SelectedTab::Tab4 => "MD5"@,
            SelectedTab::Tab5 => "tab5"@,
            SelectedTab::Tab6 => "tab6"@,
        }
    }

    /// The tab strip entry for the tab: its display name between two spaces
    /// of padding on each side.
    pub open spec fn spec_title(self) -> Seq<char> {
        match self {
            SelectedTab::Tab1 => "  base64  "@,
            SelectedTab::Tab2 => "  Hex  "@,
            SelectedTab::Tab3 => "  XOR  "@,
            SelectedTab::Tab4 => "  MD5  "@,
            SelectedTab::Tab5 => "  tab5  "@,
            SelectedTab::Tab6 => "  tab6  "@,
        }
    }

    /// The text shown in the content region while the tab is active.
    pub open spec fn spec_content_text(self) -> Seq<char> {
        match self {
            SelectedTab::Tab1 => "base 64"@,
            SelectedTab::Tab2 => "Welcome to the Ratatui tabs example!"@,
            SelectedTab::Tab3 => "Look! I'm different than others!"@,
            SelectedTab::Tab4 => "I know, these are some basic changes. But I think you got the main idea."@,
            SelectedTab::Tab5 => "I know, these are some basic changes. But I think you got the main idea."@,
            SelectedTab::Tab6 => "I know, these are some basic changes. But I think you got the main idea."@,
        }
    }

    /// The palette the tab is highlighted and framed with.
    pub open spec fn spec_palette(self) -> TabPalette {
        match self {
            SelectedTab::Tab1 => TabPalette::Blue,
            SelectedTab::Tab2 => TabPalette::Emerald,
            SelectedTab::Tab3 => TabPalette::Indigo,
            SelectedTab::Tab4 => TabPalette::Red,
            SelectedTab::Tab5 => TabPalette::Red,
            SelectedTab::Tab6 => TabPalette::Red,
        }
    }

    pub fn display_name(self) -> (r: &'static str)
        ensures
            r@ == self.spec_display_name(),
    {
        match self {
            SelectedTab::Tab1 => "base64",
            SelectedTab::Tab2 => "Hex",
            SelectedTab::Tab3 => "XOR",
            SelectedTab::Tab4 => "MD5",
            SelectedTab::Tab5 => "tab5",
            SelectedTab::Tab6 => "tab6",
        }
    }

    pub fn title(self) -> (r: &'static str)
        ensures
            r@ == self.spec_title(),
    {
        match self {
            SelectedTab::Tab1 => "  base64  ",
            SelectedTab::Tab2 => "  Hex  ",
            SelectedTab::Tab3 => "  XOR  ",
            SelectedTab::Tab4 => "  MD5  ",
            SelectedTab::Tab5 => "  tab5  ",
            SelectedTab::Tab6 => "  tab6  ",
        }
    }

    pub fn content_text(self) -> (r: &'static str)
        ensures
            r@ == self.spec_content_text(),
    {
        match self {
            SelectedTab::Tab1 => "base 64",
            SelectedTab::Tab2 => "Welcome to the Ratatui tabs example!",
            SelectedTab::Tab3 => "Look! I'm different than others!",
            SelectedTab::Tab4 => "I know, these are some basic changes. But I think you got the main idea.",
            SelectedTab::Tab5 => "I know, these are some basic changes. But I think you got the main idea.",
            SelectedTab::Tab6 => "I know, these are some basic changes. But I think you got the main idea.",
        }
    }

    pub fn palette(self) -> (r: TabPalette)
        ensures
            r == self.spec_palette(),
    {
        match self {
            SelectedTab::Tab1 => TabPalette::Blue,
            SelectedTab::Tab2 => TabPalette::Emerald,
            SelectedTab::Tab3 => TabPalette::Indigo,
            SelectedTab::Tab4 => TabPalette::Red,
            SelectedTab::Tab5 => TabPalette::Red,
            SelectedTab::Tab6 => TabPalette::Red,
        }
    }
}

/// `next` at the last tab and `previous` at the first tab change nothing.
pub proof fn lemma_navigation_saturates(t: SelectedTab)
    ensures
        t.spec_index() == NUM_TABS - 1 ==> t.spec_next() == t,
        t.spec_index() == 0 ==> t.spec_previous() == t,
{
}

/// `previous` undoes `next` except at the last tab, and `next` undoes
/// `previous` except at the first tab.
pub proof fn lemma_navigation_round_trip(t: SelectedTab)
    ensures
        t.spec_index() < NUM_TABS - 1 ==> t.spec_next().spec_previous() == t,
        t.spec_index() > 0 ==> t.spec_previous().spec_next() == t,
{
}

} // verus!
