//! The status bar: the document state it shows, where it sits in the
//! terminal, and the text it renders (drawing stays outside the library).

use vstd::prelude::*;
use vstd::string::{StrSliceExecFns, StringExecFns};
use crate::screen::{Size, cap_add};
use crate::unicode::push_char;

verus! {

/// What the status bar reports about the document.
#[derive(Clone, Copy, PartialEq, Eq, Structural, Debug)]
pub struct DocumentStates {
    pub current_line_index: usize,
    pub total_lines: usize,
}

impl Default for DocumentStates {
    /// The state before any document is loaded.
    fn default() -> (d: Self)
        ensures
            d.current_line_index == 0,
            d.total_lines == 0,
    {
        DocumentStates { current_line_index: 0, total_lines: 0 }
    }
}

/// The character for one decimal digit.
pub open spec fn digit_char(d: int) -> char {
    if d == 0 {
        '0'
    } else if d == 1 {
        '1'
    } else if d == 2 {
        '2'
    } else if d == 3 {
        '3'
    } else if d == 4 {
        '4'
    } else if d == 5 {
        '5'
    } else if d == 6 {
        '6'
    } else if d == 7 {
        '7'
    } else if d == 8 {
        '8'
    } else {
        '9'
    }
}

/// The decimal digits of a number, most significant first.
pub open spec fn dec_digits(n: nat) -> Seq<char>
    decreases n,
{
    if n < 10 {
        seq![digit_char(n as int)]
    } else {
        dec_digits(n / 10).push(digit_char((n % 10) as int))
    }
}

/// The character for one decimal digit.
fn digit_of(d: usize) -> (c: char)
    requires
        d < 10,
    ensures
        c == digit_char(d as int),
{
    if d == 0 {
        '0'
    } else if d == 1 {
        '1'
    } else if d == 2 {
        '2'
    } else if d == 3 {
        '3'
    } else if d == 4 {
        '4'
    } else if d == 5 {
        '5'
    } else if d == 6 {
        '6'
    } else if d == 7 {
        '7'
    } else if d == 8 {
        '8'
    } else {
        '9'
    }
}

/// Writes a number in decimal.
pub fn format_usize(n: usize) -> (s: String)
    ensures
        s@ == dec_digits(n as nat),
{
    let mut digits: Vec<char> = Vec::new();
    let mut m: usize = n;
    proof {
        assert(digits@.reverse() =~= Seq::<char>::empty());
        assert(dec_digits(n as nat) =~= dec_digits(m as nat) + digits@.reverse());
    }
    while m >= 10
        invariant
            dec_digits(n as nat) == dec_digits(m as nat) + digits@.reverse(),
        decreases m,
    {
        let d = digit_of(m % 10);
        let ghost before = digits@;
        digits.push(d);
        m = m / 10;
        proof {
            assert(digits@.reverse() =~= seq![d] + before.reverse());
            assert(dec_digits(n as nat) =~= dec_digits(m as nat) + digits@.reverse());
        }
    }
    let d = digit_of(m);
    let ghost before = digits@;
    digits.push(d);
    proof {
        assert(digits@.reverse() =~= seq![d] + before.reverse());
        assert(dec_digits(n as nat) =~= digits@.reverse());
    }
    let mut s = String::new();
    let len = digits.len();
    let mut k: usize = 0;
    proof {
        assert(s@ =~= digits@.reverse().take(0));
    }
    while k < len
        invariant
            k <= len,
            len == digits@.len(),
            dec_digits(n as nat) == digits@.reverse(),
            s@ == digits@.reverse().take(k as int),
        decreases len - k,
    {
        let c = digits[len - 1 - k];
        push_char(&mut s, c);
        proof {
            assert(digits@.reverse()[k as int] == digits@[len - 1 - k]);
            assert(s@ =~= digits@.reverse().take(k + 1));
        }
        k += 1;
    }
    proof {
        assert(digits@.reverse().take(len as int) =~= digits@.reverse());
    }
    s
}

/// The status line's text: the one-based cursor line over the line count.
pub open spec fn spec_status_text(st: DocumentStates) -> Seq<char> {
    dec_digits(cap_add(st.current_line_index as int, 1) as nat) + seq!['/'] + dec_digits(
        st.total_lines as nat,
    )
}

/// The status bar: the state it last showed, whether it must redraw, and
/// where it sits, kept at `margin_bottom` rows above the terminal's last row.
pub struct StatusBus {
    pub current_status: DocumentStates,
    pub needs_redraw: bool,
    pub margin_bottom: usize,
    pub width: usize,
    pub position_y: usize,
}

/// The terminal row a status bar with the given bottom margin occupies.
pub open spec fn spec_status_row(height: int, margin_bottom: int) -> int {
    if height >= margin_bottom + 1 {
        height - margin_bottom - 1
    } else {
        0
    }
}

impl StatusBus {
    /// A status bar `margin_bottom` rows above the last row of a terminal of
    /// the given size, needing a first draw.
    pub fn new(margin_bottom: usize, size: Size) -> (sb: StatusBus)
        ensures
            sb.current_status == (DocumentStates { current_line_index: 0, total_lines: 0 }),
            sb.needs_redraw,
            sb.margin_bottom == margin_bottom,
            sb.width == size.width,
            sb.position_y == spec_status_row(size.height as int, margin_bottom as int),
    {
        StatusBus {
            current_status: DocumentStates { current_line_index: 0, total_lines: 0 },
            needs_redraw: true,
            margin_bottom,
            width: size.width,
            position_y: size.height.saturating_sub(margin_bottom).saturating_sub(1),
        }
    }

    /// Refits the bar to a new terminal size and marks it for redraw.
    pub fn resize(&mut self, size: Size)
        ensures
            final(self).current_status == old(self).current_status,
            final(self).needs_redraw,
            final(self).margin_bottom == old(self).margin_bottom,
            final(self).width == size.width,
            final(self).position_y == spec_status_row(
                size.height as int,
                old(self).margin_bottom as int,
            ),
    {
        self.width = size.width;
        self.position_y = size.height.saturating_sub(self.margin_bottom).saturating_sub(1);
        self.needs_redraw = true;
    }

    /// Takes a new document state; the bar marks itself for redraw only when
    /// the state actually changed.
    pub fn update_status(&mut self, new_status: DocumentStates)
        ensures
            final(self).current_status == new_status,
            final(self).needs_redraw == (old(self).needs_redraw || new_status != old(
                self,
            ).current_status),
            final(self).margin_bottom == old(self).margin_bottom,
            final(self).width == old(self).width,
            final(self).position_y == old(self).position_y,
    {
        if new_status != self.current_status {
            self.current_status = new_status;
            self.needs_redraw = true;
        }
    }

    /// Renders the bar when dirty: the terminal row to draw on and the
    /// status text cut to the bar's width; the dirty flag clears.  A clean
    /// bar renders nothing.
    pub fn render(&mut self) -> (out: Option<(usize, String)>)
        ensures
            !old(self).needs_redraw ==> out is None && *final(self) == *old(self),
            old(self).needs_redraw ==> {
                &&& !final(self).needs_redraw
                &&& final(self).current_status == old(self).current_status
                &&& final(self).margin_bottom == old(self).margin_bottom
                &&& final(self).width == old(self).width
                &&& final(self).position_y == old(self).position_y
                &&& out matches Some(p) && p.0 == old(self).position_y && p.1@
                    == spec_status_text(old(self).current_status).take(
                    if old(self).width <= spec_status_text(old(self).current_status).len() {
                        old(self).width as int
                    } else {
                        spec_status_text(old(self).current_status).len() as int
                    },
                )
            },
    {
        if !self.needs_redraw {
            return None;
        }
        let line_part = format_usize(self.current_status.current_line_index.saturating_add(1));
        let total_part = format_usize(self.current_status.total_lines);
        let mut status = line_part;
        push_char(&mut status, '/');
        status.append(total_part.as_str());
        proof {
            assert(status@ =~= spec_status_text(self.current_status));
        }
        let slen = status.as_str().unicode_len();
        let cut = if self.width < slen {
            self.width
        } else {
            slen
        };
        let shown = status.as_str().substring_char(0, cut);
        let text = String::from_str(shown);
        proof {
            assert(text@ =~= spec_status_text(self.current_status).take(cut as int));
        }
        self.needs_redraw = false;
        Some((self.position_y, text))
    }
}

} // verus!
