//! The render pipeline: a pure function from the application state and the
//! drawable area to a frame description.
//!
//! A frame partitions the area top-to-bottom into a one-row header, a
//! flexible content region and a one-row footer, and the header left-to-right
//! into a flexible tab strip and a fixed-width title region. It carries the
//! texts and the highlight palette to draw; turning it into terminal output
//! is left to the binary around the library.
//!
//! The focus sub-mode of the active tab is tracked by the state machine but
//! does not influence the frame: no drawn region reads it.

use vstd::prelude::*;

use crate::app::App;
use crate::tabs::NUM_TABS;
use crate::tabs::SelectedTab;
use crate::tabs::TabPalette;

verus! {

/// Width of the title region at the right end of the header, in columns.
pub const TITLE_WIDTH: u16 = 20;

/// A rectangular region of the drawable area, in rows and columns.
#[derive(Clone, Copy, Debug, PartialEq, Eq, Structural)]
pub struct Rect {
    pub x: u16,
    pub y: u16,
    pub width: u16,
    pub height: u16,
}

impl Rect {
    /// The rectangle lies within the coordinate space: its far edges fit
    /// in the coordinate type.
    pub open spec fn wf(self) -> bool {
        self.x + self.width <= u16::MAX && self.y + self.height <= u16::MAX
    }
}

/// Height of the header row: one row, or nothing if the area has no room.
pub open spec fn spec_header_height(area: Rect) -> int {
    if area.height >= 1 {
        1
    } else {
        0
    }
}

/// Height of the footer row: one row, or nothing unless the area has a row
/// left after the header.
pub open spec fn spec_footer_height(area: Rect) -> int {
    if area.height >= 2 {
        1
    } else {
        0
    }
}

/// The header: the top row of the area.
pub open spec fn spec_header_area(area: Rect) -> Rect {
    Rect {
        x: area.x,
        y: area.y,
        width: area.width,
        height: spec_header_height(area) as u16,
    }
}

/// The content region: everything between the header and the footer.
pub open spec fn spec_content_area(area: Rect) -> Rect {
    Rect {
        x: area.x,
        y: (area.y + spec_header_height(area)) as u16,
        width: area.width,
        height: (area.height - spec_header_height(area) - spec_footer_height(area)) as u16,
    }
}

/// The footer: the bottom row of the area.
pub open spec fn spec_footer_area(area: Rect) -> Rect {
    Rect {
        x: area.x,
        y: (area.y + area.height - spec_footer_height(area)) as u16,
        width: area.width,
        height: spec_footer_height(area) as u16,
    }
}

/// Width of the title region: its fixed width, clipped to the header.
pub open spec fn spec_title_width(header: Rect) -> int {
    if header.width >= TITLE_WIDTH {
        TITLE_WIDTH as int
    } else {
        header.width as int
    }
}

/// The tab strip: the header minus the title region, at the left.
pub open spec fn spec_tabs_area(header: Rect) -> Rect {
    Rect {
        x: header.x,
        y: header.y,
        width: (header.width - spec_title_width(header)) as u16,
        height: header.height,
    }
}

/// The title region: the fixed-width right end of the header.
pub open spec fn spec_title_area(header: Rect) -> Rect {
    Rect {
        x: (header.x + header.width - spec_title_width(header)) as u16,
        y: header.y,
        width: spec_title_width(header) as u16,
        height: header.height,
    }
}

/// Split the area top-to-bottom into header, content and footer.
pub fn split_vertical(area: Rect) -> (r: (Rect, Rect, Rect))
    requires
        area.wf(),
    ensures
        r.0 == spec_header_area(area),
        r.1 == spec_content_area(area),
        r.2 == spec_footer_area(area),
{
    let header_h: u16 = if area.height >= 1 { 1 } else { 0 };
    let footer_h: u16 = if area.height >= 2 { 1 } else { 0 };
    let header = Rect { x: area.x, y: area.y, width: area.width, height: header_h };
    let content = Rect {
        x: area.x,
        y: area.y + header_h,
        width: area.width,
        height: area.height - header_h - footer_h,
    };
    let footer = Rect {
        x: area.x,
        y: area.y + area.height - footer_h,
        width: area.width,
        height: footer_h,
    };
    (header, content, footer)
}

/// Split the header left-to-right into the tab strip and the title region.
pub fn split_header(header: Rect) -> (r: (Rect, Rect))
    requires
        header.wf(),
    ensures
        r.0 == spec_tabs_area(header),
        r.1 == spec_title_area(header),
{
    let title_w: u16 = if header.width >= TITLE_WIDTH { TITLE_WIDTH } else { header.width };
    let tabs = Rect { x: header.x, y: header.y, width: header.width - title_w, height: header.height };
    let title = Rect {
        x: header.x + header.width - title_w,
        y: header.y,
        width: title_w,
        height: header.height,
    };
    (tabs, title)
}

/// The vertical split is a partition: the three regions keep the area's
/// columns, sit directly below one another from its top edge, and their
/// heights add up to its height.
pub proof fn lemma_vertical_partition(area: Rect)
    requires
        area.wf(),
    ensures
        spec_header_area(area).y == area.y,
        spec_content_area(area).y == area.y + spec_header_area(area).height,
        spec_footer_area(area).y == area.y + spec_header_area(area).height
            + spec_content_area(area).height,
        spec_header_area(area).height + spec_content_area(area).height
            + spec_footer_area(area).height == area.height,
{
}

/// The horizontal split is a partition: the tab strip starts at the header's
/// left edge, the title region starts where the tab strip ends, and their
/// widths add up to the header's width.
pub proof fn lemma_horizontal_partition(header: Rect)
    requires
        header.wf(),
    ensures
        spec_tabs_area(header).x == header.x,
        spec_title_area(header).x == header.x + spec_tabs_area(header).width,
        spec_tabs_area(header).width + spec_title_area(header).width == header.width,
{
}

/// A frame: the four regions of the drawable area together with everything
/// that is drawn into them.
#[derive(Debug, PartialEq, Eq)]
pub struct Frame {
    pub tabs_area: Rect,
    pub title_area: Rect,
    pub content_area: Rect,
    pub footer_area: Rect,
    /// One tab strip entry per tab, in registry order.
    pub tab_titles: Vec<&'static str>,
    /// Each tab's own palette, in registry order.
    pub tab_palettes: Vec<TabPalette>,
    /// The registry position of the tab drawn highlighted.
    pub active_index: usize,
    /// The palette of the active tab.
    pub highlight: TabPalette,
    /// The active tab's content text.
    pub content_text: &'static str,
    pub title_text: &'static str,
    pub footer_text: &'static str,
}

/// The content of a frame, with every text as the sequence of its characters.
#[verifier::ext_equal]
pub struct FrameContent {
    pub tabs_area: Rect,
    pub title_area: Rect,
    pub content_area: Rect,
    pub footer_area: Rect,
    pub tab_titles: Seq<Seq<char>>,
    pub tab_palettes: Seq<TabPalette>,
    pub active_index: int,
    pub highlight: TabPalette,
    pub content_text: Seq<char>,
    pub title_text: Seq<char>,
    pub footer_text: Seq<char>,
}

/// What a frame holds, as drawn: the abstraction the render contract and the
/// determinism statement are about.
pub open spec fn spec_frame_content(f: Frame) -> FrameContent {
    FrameContent {
        tabs_area: f.tabs_area,
        title_area: f.title_area,
        content_area: f.content_area,
        footer_area: f.footer_area,
        tab_titles: f.tab_titles@.map_values(|t: &'static str| t@),
        tab_palettes: f.tab_palettes@,
        active_index: f.active_index as int,
        highlight: f.highlight,
        content_text: f.content_text@,
        title_text: f.title_text@,
        footer_text: f.footer_text@,
    }
}

/// The frame the render pipeline produces for a state and an area: regions
/// from the two splits, the full tab strip with the active tab highlighted
/// in its palette, the active tab's content, the application title and the
/// static help line.
pub open spec fn spec_render(s: App, area: Rect) -> FrameContent {
    FrameContent {
        tabs_area: spec_tabs_area(spec_header_area(area)),
        title_area: spec_title_area(spec_header_area(area)),
        content_area: spec_content_area(area),
        footer_area: spec_footer_area(area),
        tab_titles: Seq::new(NUM_TABS as nat, |i: int| SelectedTab::spec_from_index(i).spec_title()),
        tab_palettes: Seq::new(NUM_TABS as nat, |i: int| SelectedTab::spec_from_index(i).spec_palette()),
        active_index: s.selected_tab.spec_index(),
        highlight: s.selected_tab.spec_palette(),
        content_text: s.selected_tab.spec_content_text(),
        title_text: "Ciphered"@,
        footer_text: "◄ ► to change tab | Press q to quit"@,
    }
}

/// Build the frame for the current state. Pure: nothing is mutated, and the
/// result's content is exactly `spec_render` of the inputs.
pub fn render(s: &App, area: Rect) -> (r: Frame)
    requires
        area.wf(),
    ensures
        spec_frame_content(r) == spec_render(*s, area),
{
    let (header, content, footer) = split_vertical(area);
    proof {
        assert(header.wf());
    }
    let (tabs_area, title_area) = split_header(header);

    let mut tab_titles: Vec<&'static str> = Vec::new();
    let mut tab_palettes: Vec<TabPalette> = Vec::new();
    let mut i: usize = 0;
    while i < NUM_TABS
        invariant
            i <= NUM_TABS,
            tab_titles@.len() == i,
            tab_palettes@.len() == i,
            forall|j: int| 0 <= j < i ==> #[trigger] tab_titles@[j]@
                == SelectedTab::spec_from_index(j).spec_title(),
            forall|j: int| 0 <= j < i ==> #[trigger] tab_palettes@[j]
                == SelectedTab::spec_from_index(j).spec_palette(),
        decreases NUM_TABS - i,
    {
        let t = SelectedTab::from_index(i);
        tab_titles.push(t.title());
        tab_palettes.push(t.palette());
        i += 1;
    }

    let r = Frame {
        tabs_area,
        title_area,
        content_area: content,
        footer_area: footer,
        tab_titles,
        tab_palettes,
        active_index: s.selected_tab.index(),
        highlight: s.selected_tab.palette(),
        content_text: s.selected_tab.content_text(),
        title_text: "Ciphered",
        footer_text: "◄ ► to change tab | Press q to quit",
    };
    proof {
        assert(spec_frame_content(r).tab_titles =~~= spec_render(*s, area).tab_titles);
        assert(spec_frame_content(r) =~~= spec_render(*s, area));
    }
    r
}

/// Rendering is deterministic: identical states and areas yield identical
/// frame content.
pub proof fn lemma_render_deterministic(s1: App, s2: App, a1: Rect, a2: Rect)
    requires
        s1 == s2,
        a1 == a2,
    ensures
        spec_render(s1, a1) == spec_render(s2, a2),
{
}

} // verus!
