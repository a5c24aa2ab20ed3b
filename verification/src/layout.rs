//! Where things go on the screen: the frame of the menu, the lines of the
//! question before all other sessions are killed, and which parts are
//! drawn. Only numbers and choices are worked out here; nothing is drawn.

use crate::screen::ActiveScreen;
use crate::state::{State, StateView};
use vstd::prelude::*;

verus! {

/// The menu of the standalone welcome screen is at most this wide.
pub const WELCOME_WIDTH: usize = 101;

/// The standalone welcome screen keeps this many rows in mind when it
/// centres the menu.
pub const WELCOME_HEIGHT: usize = 15;

/// The frame of the menu on a screen of `rows` rows and `cols` columns:
/// its left column, its top row, its width and its height. Outside the
/// standalone welcome screen the menu fills the screen. On the welcome
/// screen it is at most `WELCOME_WIDTH` wide, stands two columns right of
/// the centred position, and starts half of the rows it can spare below
/// the top.
pub open spec fn menu_frame(standalone: bool, rows: int, cols: int) -> (int, int, int, int) {
    if standalone {
        let width = if cols < WELCOME_WIDTH {
            cols
        } else {
            WELCOME_WIDTH as int
        };
        let y = if rows > WELCOME_HEIGHT {
            (rows - WELCOME_HEIGHT) / 2
        } else {
            0
        };
        ((cols - width) / 2 + 2, y, width, rows - y)
    } else {
        (0, 0, cols, rows)
    }
}

/// The frame is never wider than the screen, and it reaches from its top
/// row to the last row of the screen.
pub proof fn lemma_menu_frame_fits(standalone: bool, rows: int, cols: int)
    requires
        0 <= rows,
        0 <= cols,
    ensures
        0 <= menu_frame(standalone, rows, cols).0,
        0 <= menu_frame(standalone, rows, cols).1 <= rows,
        0 <= menu_frame(standalone, rows, cols).2 <= cols,
        menu_frame(standalone, rows, cols).1 + menu_frame(standalone, rows, cols).3 == rows,
        standalone ==> menu_frame(standalone, rows, cols).2 <= WELCOME_WIDTH,
{
}

/// The part of the attach screen, or the other screen, that fills the body
/// of the menu.
#[derive(Clone, Copy, Debug, PartialEq, Eq, Structural)]
pub enum Body {
    /// The builder of new sessions.
    NewSession,
    /// The rename field.
    Renaming,
    /// The question whether all other sessions are to be killed.
    KillAllWarning,
    /// The search field and the session list.
    Search,
    /// The list of resurrectable sessions.
    Resurrect,
}

/// What stands in the last line of the menu.
#[derive(Clone, Copy, Debug, PartialEq, Eq, Structural)]
pub enum Footer {
    /// The error that is shown.
    Error,
    /// The line of controls of the screen.
    Controls,
}

impl StateView {
    /// What fills the body of the menu. On the attach screen the rename
    /// field is drawn if it is open, else the question if it is open, else
    /// the search field with the list; never two of them.
    pub open spec fn body(self) -> Body {
        match self.active_screen {
            ActiveScreen::New => Body::NewSession,
            ActiveScreen::Attach => if self.renaming is Some {
                Body::Renaming
            } else if self.show_kill_all_sessions_warning {
                Body::KillAllWarning
            } else {
                Body::Search
            },
            ActiveScreen::Resurrect => Body::Resurrect,
        }
    }

    /// What stands in the last line: the error while one is shown, the
    /// controls otherwise.
    pub open spec fn footer(self) -> Footer {
        if self.error is Some {
            Footer::Error
        } else {
            Footer::Controls
        }
    }
}

/// The number of decimal digits of `n`.
pub open spec fn decimal_digits(n: nat) -> nat
    decreases n,
{
    if n < 10 {
        1
    } else {
        1 + decimal_digits(n / 10)
    }
}

/// A number below two to the power of 64 has at most 20 decimal digits.
pub proof fn lemma_decimal_digits_bound(n: nat)
    requires
        n <= u64::MAX,
    ensures
        1 <= decimal_digits(n) <= 20,
{
    reveal_with_fuel(decimal_digits, 21);
}

/// The number of decimal digits of `n`.
pub fn count_digits(n: usize) -> (digits: usize)
    ensures
        digits == decimal_digits(n as nat),
        1 <= digits <= 20,
{
    proof {
        lemma_decimal_digits_bound(n as nat);
    }
    let mut digits: usize = 1;
    let mut rest: usize = n;
    while rest >= 10
        invariant
            1 <= digits,
            digits + decimal_digits(rest as nat) == decimal_digits(n as nat) + 1,
            decimal_digits(n as nat) <= 20,
        decreases rest,
    {
        rest = rest / 10;
        digits = digits + 1;
    }
    digits
}

/// The length of the line "This will kill N active sessions" without the
/// number: fifteen characters before it and sixteen after it.
pub const WARNING_TEXT_BEFORE: usize = 15;

/// See `WARNING_TEXT_BEFORE`.
pub const WARNING_TEXT_AFTER: usize = 16;

/// The length of the line "Are you sure? (y/n)".
pub const CONFIRMATION_TEXT_LEN: usize = 19;

/// Where the two lines of the question go, and which characters of the
/// first line hold the number of sessions.
#[derive(Clone, Copy, Debug, PartialEq, Eq, Structural)]
pub struct WarningLayout {
    pub warning_x: usize,
    pub warning_y: usize,
    pub confirmation_x: usize,
    pub confirmation_y: usize,
    /// The number starts at this character of the first line ...
    pub count_start: usize,
    /// ... and ends before this one. The character after the number is
    /// marked with it.
    pub count_end: usize,
}

/// `a - b`, or zero where `b` is the larger one.
pub open spec fn minus_or_zero(a: int, b: int) -> int {
    if a >= b {
        a - b
    } else {
        0
    }
}

/// The layout of the question in a frame of `rows` rows and `columns`
/// columns whose top left corner is at column `x` and row `y`, for
/// `session_count` sessions. Both lines are centred in the frame; the first
/// stands one row above the middle row and the second one row below it. A
/// frame without rows or without columns has no layout.
pub open spec fn warning_layout(rows: int, columns: int, x: int, y: int, session_count: nat)
    -> Option<(int, int, int, int, int, int)> {
    if rows == 0 || columns == 0 {
        None
    } else {
        let digits = decimal_digits(session_count) as int;
        let text_len = WARNING_TEXT_BEFORE + digits + WARNING_TEXT_AFTER;
        Some(
            (
                x + minus_or_zero(columns, text_len) / 2,
                y + minus_or_zero(rows / 2, 1),
                x + minus_or_zero(columns, CONFIRMATION_TEXT_LEN as int) / 2,
                y + rows / 2 + 1,
                WARNING_TEXT_BEFORE as int,
                WARNING_TEXT_BEFORE + 1 + digits,
            ),
        )
    }
}

/// Works out the layout of the question. The frame has to lie within the
/// range of the coordinates.
pub fn kill_all_warning_layout(
    rows: usize,
    columns: usize,
    x: usize,
    y: usize,
    session_count: usize,
) -> (layout: Option<WarningLayout>)
    requires
        x + columns <= usize::MAX,
        y + rows <= usize::MAX,
    ensures
        layout is Some <==> rows != 0 && columns != 0,
        match layout {
            Some(l) => warning_layout(
                rows as int,
                columns as int,
                x as int,
                y as int,
                session_count as nat,
            ) == Some(
                (
                    l.warning_x as int,
                    l.warning_y as int,
                    l.confirmation_x as int,
                    l.confirmation_y as int,
                    l.count_start as int,
                    l.count_end as int,
                ),
            ),
            None => warning_layout(
                rows as int,
                columns as int,
                x as int,
                y as int,
                session_count as nat,
            ) is None,
        },
{
    if rows == 0 || columns == 0 {
        return None;
    }
    let digits = count_digits(session_count);
    let text_len = WARNING_TEXT_BEFORE + digits + WARNING_TEXT_AFTER;
    let half = rows / 2;
    let above = if half >= 1 {
        half - 1
    } else {
        0
    };
    let warning_room = if columns >= text_len {
        columns - text_len
    } else {
        0
    };
    let confirmation_room = if columns >= CONFIRMATION_TEXT_LEN {
        columns - CONFIRMATION_TEXT_LEN
    } else {
        0
    };
    Some(
        WarningLayout {
            warning_x: x + warning_room / 2,
            warning_y: y + above,
            confirmation_x: x + confirmation_room / 2,
            confirmation_y: y + half + 1,
            count_start: WARNING_TEXT_BEFORE,
            count_end: WARNING_TEXT_BEFORE + 1 + digits,
        },
    )
}

impl State {
    /// The frame of the menu on a screen of `rows` rows and `cols` columns:
    /// its left column, its top row, its width and its height.
    pub fn main_menu_size(&self, rows: usize, cols: usize) -> (frame: (usize, usize, usize, usize))
        ensures
            (frame.0 as int, frame.1 as int, frame.2 as int, frame.3 as int) == menu_frame(
                self@.is_welcome_screen,
                rows as int,
                cols as int,
            ),
    {
        if self.is_welcome_screen {
            let width = if cols < WELCOME_WIDTH {
                cols
            } else {
                WELCOME_WIDTH
            };
            let x = (cols - width) / 2 + 2;
            let y = if rows > WELCOME_HEIGHT {
                (rows - WELCOME_HEIGHT) / 2
            } else {
                0
            };
            (x, y, width, rows - y)
        } else {
            (0, 0, cols, rows)
        }
    }

    /// What fills the body of the menu.
    pub fn body(&self) -> (body: Body)
        ensures
            body == self@.body(),
    {
        match self.active_screen {
            ActiveScreen::New => Body::NewSession,
            ActiveScreen::Attach => {
                if self.renaming_session_name.is_some() {
                    Body::Renaming
                } else if self.show_kill_all_sessions_warning {
                    Body::KillAllWarning
                } else {
                    Body::Search
                }
            },
            ActiveScreen::Resurrect => Body::Resurrect,
        }
    }

    /// What stands in the last line of the menu.
    pub fn footer(&self) -> (footer: Footer)
        ensures
            footer == self@.footer(),
    {
        if self.error.is_some() {
            Footer::Error
        } else {
            Footer::Controls
        }
    }
}

} // verus!
