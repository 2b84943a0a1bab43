use vstd::prelude::*;

use crate::keyboard::{KeyInput, RawInput};

verus! {

/// The sixteen VGA text-mode colors, in palette order.
#[derive(Clone, Copy, PartialEq, Eq, Structural, Debug)]
pub enum Color {
    Black,
    Blue,
    Green,
    Cyan,
    Red,
    Magenta,
    Brown,
    LightGray,
    DarkGray,
    LightBlue,
    LightGreen,
    LightCyan,
    LightRed,
    Pink,
    Yellow,
    White,
}

/// The palette position of each color.
pub open spec fn color_number(c: Color) -> u8 {
    match c {
        Color::Black => 0,
        Color::Blue => 1,
        Color::Green => 2,
        Color::Cyan => 3,
        Color::Red => 4,
        Color::Magenta => 5,
        Color::Brown => 6,
        Color::LightGray => 7,
        Color::DarkGray => 8,
        Color::LightBlue => 9,
        Color::LightGreen => 10,
        Color::LightCyan => 11,
        Color::LightRed => 12,
        Color::Pink => 13,
        Color::Yellow => 14,
        Color::White => 15,
    }
}

impl Color {
    /// The color at a palette position.  There is no color past the
    /// palette, so such positions are ruled out up front.
    pub fn from_u32(value: u32) -> (r: Color)
        requires
            value <= 15,
        ensures
            color_number(r) == value,
    {
        match value {
            0 => Color::Black,
            1 => Color::Blue,
            2 => Color::Green,
            3 => Color::Cyan,
            4 => Color::Red,
            5 => Color::Magenta,
            6 => Color::Brown,
            7 => Color::LightGray,
            8 => Color::DarkGray,
            9 => Color::LightBlue,
            10 => Color::LightGreen,
            11 => Color::LightCyan,
            12 => Color::LightRed,
            13 => Color::Pink,
            14 => Color::Yellow,
            _ => Color::White,
        }
    }

    /// The palette position of this color.
    pub fn number(self) -> (r: u8)
        ensures
            r == color_number(self),
    {
        match self {
            Color::Black => 0,
            Color::Blue => 1,
            Color::Green => 2,
            Color::Cyan => 3,
            Color::Red => 4,
            Color::Magenta => 5,
            Color::Brown => 6,
            Color::LightGray => 7,
            Color::DarkGray => 8,
            Color::LightBlue => 9,
            Color::LightGreen => 10,
            Color::LightCyan => 11,
            Color::LightRed => 12,
            Color::Pink => 13,
            Color::Yellow => 14,
            Color::White => 15,
        }
    }
}

/// A foreground and background color packed into one text-mode attribute
/// byte: the background in the high four bits, the foreground in the low
/// four.
#[derive(Clone, Copy, PartialEq, Eq, Structural, Debug)]
pub struct ColorCode(pub u8);

impl ColorCode {
    pub fn new(foreground: Color, background: Color) -> (r: ColorCode)
        ensures
            r.0 == 16 * color_number(background) + color_number(foreground),
    {
        let fg = foreground.number();
        let bg = background.number();
        let packed = (bg << 4u8) | fg;
        assert(fg <= 15 && bg <= 15 ==> ((bg << 4u8) | fg) == 16 * bg + fg) by (bit_vector);
        ColorCode(packed)
    }
}

/// One registered screen of the graphics mode.  Its drawing routine lives
/// with the renderer that owns the hardware; here a page only takes part
/// in the page-navigation order.
#[derive(Clone, Copy, Debug)]
pub struct Page {
    _private: (),
}

impl Page {
    pub fn new() -> Page {
        Page { _private: () }
    }
}

/// The registered pages, in registration order.
pub struct PageRegistry {
    pages: Vec<Page>,
}

impl PageRegistry {
    pub closed spec fn len(&self) -> nat {
        self.pages@.len()
    }

    pub fn new() -> (r: PageRegistry)
        ensures
            r.len() == 0,
    {
        PageRegistry { pages: Vec::new() }
    }

    pub fn page_count(&self) -> (r: usize)
        ensures
            r as nat == self.len(),
    {
        self.pages.len()
    }
}

/// Register one more page at the end of the order.
pub fn add_page(registry: &mut PageRegistry, page: Page)
    ensures
        final(registry).len() == old(registry).len() + 1,
{
    registry.pages.push(page);
}

/// How many background colors the navigation cycles through.
pub const COLOR_COUNT: u8 = 16;

/// The graphics mode's navigation state: which background color and which
/// page are current.
pub struct GraphicsNav {
    pub color_index: u8,
    pub page: usize,
}

impl GraphicsNav {
    pub open spec fn wf(&self, page_count: nat) -> bool {
        &&& self.color_index < COLOR_COUNT
        &&& self.page < page_count
    }

    pub fn new() -> (r: GraphicsNav)
        ensures
            r.color_index == 0,
            r.page == 0,
    {
        GraphicsNav { color_index: 0, page: 0 }
    }
}

/// Set up the graphics mode: register its three screens and start at the
/// first page.
pub fn init(registry: &mut PageRegistry, nav: &mut GraphicsNav)
    ensures
        final(registry).len() == old(registry).len() + 3,
        final(nav).page == 0,
        final(nav).color_index == old(nav).color_index,
{
    add_page(registry, Page::new());
    add_page(registry, Page::new());
    add_page(registry, Page::new());
    nav.page = 0;
}

/// What the page-navigation handler decides for one key.
#[derive(Clone, Copy, PartialEq, Eq, Structural, Debug)]
pub enum GraphicsAction {
    /// The background color or the page changed: redraw the screen.
    Redraw,
    /// Leave graphics mode and hand the screen back to the text shell.
    ExitToText,
    /// The key means nothing here.
    Ignore,
}

/// The graphics page-navigation handler: left and right arrows cycle the
/// background color, up and down arrows cycle the page, both with
/// wraparound; `c` also cycles the color; `x` exits to text mode; every
/// other key is ignored.
pub fn register_key(nav: &mut GraphicsNav, pages: &PageRegistry, key: KeyInput) -> (r:
    GraphicsAction)
    requires
        old(nav).wf(pages.len()),
        pages.len() >= 1,
    ensures
        final(nav).wf(pages.len()),
        key == KeyInput::Raw(RawInput::ArrowLeft) ==> r == GraphicsAction::Redraw && final(nav).page == old(nav).page && final(nav).color_index == (if old(nav).color_index == 0 {
            (COLOR_COUNT - 1) as u8
        } else {
            (old(nav).color_index - 1) as u8
        }),
        (key == KeyInput::Raw(RawInput::ArrowRight) || key == KeyInput::Char('c') || key
            == KeyInput::Char('C')) ==> r == GraphicsAction::Redraw && final(nav).page == old(nav).page && final(nav).color_index == (if old(nav).color_index + 1 == COLOR_COUNT {
            0u8
        } else {
            (old(nav).color_index + 1) as u8
        }),
        key == KeyInput::Raw(RawInput::ArrowUp) ==> r == GraphicsAction::Redraw && final(nav).color_index == old(nav).color_index && final(nav).page as nat == (if old(nav).page == 0 {
            (pages.len() - 1) as nat
        } else {
            (old(nav).page - 1) as nat
        }),
        key == KeyInput::Raw(RawInput::ArrowDown) ==> r == GraphicsAction::Redraw && final(nav).color_index == old(nav).color_index && final(nav).page as nat == (if old(nav).page + 1
            >= pages.len() {
            0nat
        } else {
            (old(nav).page + 1) as nat
        }),
        (key == KeyInput::Char('x') || key == KeyInput::Char('X')) ==> r
            == GraphicsAction::ExitToText && final(nav).page == old(nav).page && final(nav).color_index == old(nav).color_index,
        (key == KeyInput::Raw(RawInput::Backspace) || (key matches KeyInput::Raw(
            RawInput::Other(_),
        )) || (key matches KeyInput::Char(c) && c != 'x' && c != 'X' && c != 'c' && c != 'C'))
            ==> r == GraphicsAction::Ignore && final(nav).page == old(nav).page && final(nav).color_index == old(nav).color_index,
{
    match key {
        KeyInput::Raw(RawInput::ArrowLeft) => {
            if nav.color_index == 0 {
                nav.color_index = COLOR_COUNT - 1;
            } else {
                nav.color_index = nav.color_index - 1;
            }
            GraphicsAction::Redraw
        },
        KeyInput::Raw(RawInput::ArrowRight) => {
            nav.color_index = nav.color_index + 1;
            if nav.color_index >= COLOR_COUNT {
                nav.color_index = 0;
            }
            GraphicsAction::Redraw
        },
        KeyInput::Raw(RawInput::ArrowUp) => {
            if nav.page == 0 {
                nav.page = pages.page_count();
            }
            nav.page = nav.page - 1;
            GraphicsAction::Redraw
        },
        KeyInput::Raw(RawInput::ArrowDown) => {
            let count = pages.page_count();
            if nav.page >= count - 1 {
                nav.page = 0;
            } else {
                nav.page = nav.page + 1;
            }
            GraphicsAction::Redraw
        },
        KeyInput::Char(c) => {
            if c == 'x' || c == 'X' {
                GraphicsAction::ExitToText
            } else if c == 'c' || c == 'C' {
                nav.color_index = nav.color_index + 1;
                if nav.color_index >= COLOR_COUNT {
                    nav.color_index = 0;
                }
                GraphicsAction::Redraw
            } else {
                GraphicsAction::Ignore
            }
        },
        KeyInput::Raw(_) => GraphicsAction::Ignore,
    }
}

/// Where a rectangle of the given size starts when centered on the
/// 640 by 480 screen.
pub fn calculate_centered_rect(size: (isize, isize)) -> (r: (isize, isize))
    requires
        0 <= size.0 <= 640,
        0 <= size.1 <= 480,
    ensures
        r.0 == (640 - size.0) / 2,
        r.1 == (480 - size.1) / 2,
{
    let x = (640 - size.0) / 2;
    let y = (480 - size.1) / 2;
    (x, y)
}

/// Where a line of glyphs starts so that it sits centered between two
/// horizontal bounds, eight pixels per glyph.
pub fn centered_text_x(bound_start: usize, bound_end: usize, line_len: usize) -> (x: usize)
    requires
        bound_start + bound_end <= usize::MAX,
        line_len * 8 <= usize::MAX,
        (line_len * 8) / 2 <= (bound_start + bound_end) / 2,
    ensures
        x == (bound_start + bound_end) / 2 - (line_len * 8) / 2,
{
    (bound_start + bound_end) / 2 - (line_len * 8) / 2
}

/// Where a sixteen-pixel-tall line starts so that it sits centered
/// between two vertical bounds.
pub fn centered_text_y(bound_start: usize, bound_end: usize) -> (y: usize)
    requires
        bound_start + bound_end <= usize::MAX,
        (bound_start + bound_end) / 2 >= 8,
    ensures
        y == (bound_start + bound_end) / 2 - 8,
{
    (bound_start + bound_end) / 2 - 8
}

} // verus!
