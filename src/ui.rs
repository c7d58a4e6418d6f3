use vstd::prelude::*;

verus! {

/// Screen geometry and the scrollable window over the listed lines. Drawing
/// is done elsewhere; this holds what decides what is drawn where.
pub struct UI {
    /// Width and height of the terminal.
    pub window_size: (u16, u16),
    /// First and last row that list content may use.
    pub safe_height: (u16, u16),
    /// Index of the selected line.
    pub content_cursor: usize,
    /// Index of the first line shown.
    pub content_render_from: usize,
    /// How many lines the window shows.
    pub content_render_items: u16,
    pub path_label: String,
    pub desc_label: String,
}

/// Smallest list window the screen layout supports.
pub const MIN_RENDER_ITEMS: u16 = 5;

/// The characters of `s` from `from` up to `to`.
pub fn str_slince(arg: &str, from: usize, to: usize) -> (r: String)
    requires
        from <= to <= arg@.len(),
    ensures
        r@ == arg@.subrange(from as int, to as int),
{
    arg.substring_char(from, to).to_owned()
}

/// The number of characters (not bytes) in `arg`.
pub fn get_char_len(arg: &str) -> (r: usize)
    ensures
        r == arg@.len(),
{
    arg.unicode_len()
}

/// `s` cut to at most `width` characters and padded with spaces to exactly
/// `width` characters.
pub open spec fn fitted(s: Seq<char>, width: nat) -> Seq<char> {
    if s.len() >= width {
        s.subrange(0, width as int)
    } else {
        s + Seq::new((width - s.len()) as nat, |i: int| ' ')
    }
}

/// A list line as it fills a row of the given width.
pub fn fit_line(s: &str, width: usize) -> (r: String)
    ensures
        r@ == fitted(s@, width as nat),
{
    let n = get_char_len(s);
    let p = if n < width {
        n
    } else {
        width
    };
    let mut out = str_slince(s, 0, p);
    let mut k: usize = p;
    proof {
        reveal_strlit(" ");
    }
    while k < width
        invariant
            p <= k <= width || (p == k && k >= width),
            p == (if n < width { n } else { width }),
            n == s@.len(),
            out@ == s@.subrange(0, p as int) + Seq::new((k - p) as nat, |i: int| ' '),
        decreases width - k,
    {
        proof {
            reveal_strlit(" ");
            assert(" "@ =~= seq![' ']);
        }
        out.append(" ");
        assert(out@ =~= s@.subrange(0, p as int) + Seq::new((k + 1 - p) as nat, |i: int| ' '));
        k += 1;
    }
    proof {
        if n >= width {
            assert(out@ =~= s@.subrange(0, width as int));
        } else {
            assert(s@.subrange(0, p as int) =~= s@);
        }
    }
    out
}

/// The cursor after the reset: back to the first line when it is at or
/// past the end of a list of `len` lines, else where it was.
pub open spec fn reclamped(cursor: usize, len: usize) -> usize {
    if cursor >= len {
        0
    } else {
        cursor
    }
}

/// Where the window starts after it has been moved to keep the cursor in
/// view: back to one line above the cursor when the cursor is at or above
/// the first shown line, and forward just far enough when it is below the
/// last.
pub open spec fn scrolled(cursor: usize, render_from: usize, len: usize, rows: usize) -> usize {
    let first = if cursor <= render_from {
        if cursor > 0 {
            (cursor - 1) as usize
        } else {
            0usize
        }
    } else {
        render_from
    };
    if cursor >= first + rows && cursor < len {
        (cursor - rows + 1) as usize
    } else {
        first
    }
}

impl UI {
    pub fn new() -> (r: UI)
        ensures
            r.window_size == (0u16, 0u16),
            r.safe_height == (0u16, 0u16),
            r.content_cursor == 0,
            r.content_render_from == 0,
            r.content_render_items == 0,
            r.path_label@.len() == 0,
            r.desc_label@ == "description label"@,
    {
        UI {
            window_size: (0, 0),
            safe_height: (0, 0),
            content_cursor: 0,
            content_render_from: 0,
            content_render_items: 0,
            path_label: String::new(),
            desc_label: "description label".to_owned(),
        }
    }

    /// Lays the screen out for a terminal of the given size and puts the
    /// window at the top. Returns whether the terminal is tall enough.
    pub fn begin_layout(&mut self, width: u16, height: u16) -> (ok: bool)
        ensures
            final(self).window_size == (width, height),
            final(self).safe_height == (2u16, (if height >= 3 { height - 3 } else { 0 }) as u16),
            final(self).content_cursor == 0,
            final(self).content_render_from == 0,
            final(self).content_render_items == (if height >= 5 { height - 5 } else { 0 }) as u16,
            final(self).path_label == old(self).path_label,
            final(self).desc_label == old(self).desc_label,
            ok == (final(self).content_render_items >= MIN_RENDER_ITEMS),
    {
        self.set_window_size(width, height);
        self.content_cursor = 0;
        self.content_render_from = 0;
        self.content_render_items = self.safe_height.1.saturating_sub(2);
        self.content_render_items >= MIN_RENDER_ITEMS
    }

    /// Records a new terminal size. The list window keeps its height.
    pub fn set_window_size(&mut self, width: u16, heigh: u16)
        ensures
            final(self).window_size == (width, heigh),
            final(self).safe_height == (2u16, (if heigh >= 3 { heigh - 3 } else { 0 }) as u16),
            final(self).content_cursor == old(self).content_cursor,
            final(self).content_render_from == old(self).content_render_from,
            final(self).content_render_items == old(self).content_render_items,
            final(self).path_label == old(self).path_label,
            final(self).desc_label == old(self).desc_label,
    {
        self.window_size = (width, heigh);
        self.safe_height = (2, heigh.saturating_sub(3));
    }

    /// Sets the two labels of the frame: the path on top, the description
    /// line at the bottom.
    pub fn set_frame_content(&mut self, path_label: String, desc_label: String)
        ensures
            final(self).path_label == path_label,
            final(self).desc_label == desc_label,
            final(self).window_size == old(self).window_size,
            final(self).safe_height == old(self).safe_height,
            final(self).content_cursor == old(self).content_cursor,
            final(self).content_render_from == old(self).content_render_from,
            final(self).content_render_items == old(self).content_render_items,
    {
        self.path_label = path_label;
        self.desc_label = desc_label;
    }

    /// The last `to` characters of `s`, or all of it when it is shorter.
    pub fn trim_str_to(&self, s: &str, to: usize) -> (r: String)
        ensures
            r@ == (if s@.len() <= to {
                s@
            } else {
                s@.subrange(s@.len() - to, s@.len() as int)
            }),
    {
        let n = s.unicode_len();
        if n <= to {
            s.to_owned()
        } else {
            s.substring_char(n - to, n).to_owned()
        }
    }

    /// Puts the cursor back on the first line when it is past the end of a
    /// list of `len` lines.
    pub fn reclamp(&mut self, len: usize)
        ensures
            final(self).content_cursor == reclamped(old(self).content_cursor, len),
            len > 0 ==> final(self).content_cursor < len,
            final(self).content_render_from == old(self).content_render_from,
            final(self).content_render_items == old(self).content_render_items,
            final(self).window_size == old(self).window_size,
            final(self).safe_height == old(self).safe_height,
            final(self).path_label == old(self).path_label,
            final(self).desc_label == old(self).desc_label,
    {
        if self.content_cursor >= len {
            self.content_cursor = 0;
        }
    }

    /// Moves the window so that the cursor is inside it, by as little as
    /// the rules allow.
    pub fn scroll_to_keep_visible(&mut self, len: usize, visible_rows: usize)
        ensures
            final(self).content_render_from == scrolled(
                old(self).content_cursor,
                old(self).content_render_from,
                len,
                visible_rows,
            ),
            old(self).content_cursor < len && visible_rows > 0 ==> final(self).content_render_from
                <= final(self).content_cursor < final(self).content_render_from + visible_rows,
            final(self).content_cursor == old(self).content_cursor,
            final(self).content_render_items == old(self).content_render_items,
            final(self).window_size == old(self).window_size,
            final(self).safe_height == old(self).safe_height,
            final(self).path_label == old(self).path_label,
            final(self).desc_label == old(self).desc_label,
    {
        let cursor = self.content_cursor;
        if cursor <= self.content_render_from {
            if cursor > 0 {
                self.content_render_from = cursor - 1;
            } else {
                self.content_render_from = 0;
            }
        }
        if cursor >= self.content_render_from && cursor - self.content_render_from >= visible_rows
            && cursor < len {
            self.content_render_from = cursor - visible_rows + 1;
        }
    }

    /// Readies the window for drawing a list of `len` lines.
    pub fn prepare_render(&mut self, len: usize)
        ensures
            final(self).content_cursor == reclamped(old(self).content_cursor, len),
            final(self).content_render_from == scrolled(
                final(self).content_cursor,
                old(self).content_render_from,
                len,
                old(self).content_render_items as usize,
            ),
            len > 0 && old(self).content_render_items > 0 ==> final(self).content_render_from
                <= final(self).content_cursor < final(self).content_render_from
                + old(self).content_render_items,
            final(self).content_render_items == old(self).content_render_items,
            final(self).window_size == old(self).window_size,
            final(self).safe_height == old(self).safe_height,
            final(self).path_label == old(self).path_label,
            final(self).desc_label == old(self).desc_label,
    {
        self.reclamp(len);
        let rows = self.content_render_items as usize;
        self.scroll_to_keep_visible(len, rows);
    }

    /// How many lines are hidden above the window.
    pub fn items_above(&self) -> (r: usize)
        ensures
            r == self.content_render_from,
    {
        self.content_render_from
    }

    /// How many of `len` lines are hidden below the window.
    pub fn items_below(&self, len: usize) -> (r: usize)
        ensures
            r == (if len >= self.content_render_from + self.content_render_items {
                len - self.content_render_from - self.content_render_items
            } else {
                0
            }),
    {
        let rows = self.content_render_items as usize;
        if len > self.content_render_from && len - self.content_render_from > rows {
            len - self.content_render_from - rows
        } else {
            0
        }
    }

    /// One past the last index that the list rows show, for a list of `len`
    /// lines: the window's lines and one more, as far as the list goes.
    pub fn render_end(&self, len: usize) -> (r: usize)
        ensures
            r == (if len <= self.content_render_from {
                self.content_render_from as int
            } else if len - self.content_render_from > self.content_render_items + 1 {
                self.content_render_from + self.content_render_items + 1
            } else {
                len as int
            }),
    {
        let rows = self.content_render_items as usize;
        if len <= self.content_render_from {
            self.content_render_from
        } else if len - self.content_render_from > rows + 1 {
            self.content_render_from + rows + 1
        } else {
            len
        }
    }

    /// Moves the cursor one line up, or five (fewer at the top) for a big
    /// step.
    pub fn move_selection_up(&mut self, big_step: bool)
        ensures
            final(self).content_cursor == (if old(self).content_cursor == 0 {
                0
            } else if big_step {
                if old(self).content_cursor >= 5 {
                    old(self).content_cursor - 5
                } else {
                    0
                }
            } else {
                old(self).content_cursor - 1
            }),
            final(self).content_render_from == old(self).content_render_from,
            final(self).content_render_items == old(self).content_render_items,
            final(self).window_size == old(self).window_size,
            final(self).safe_height == old(self).safe_height,
            final(self).path_label == old(self).path_label,
            final(self).desc_label == old(self).desc_label,
    {
        if self.content_cursor > 0 {
            if big_step {
                let step = if self.content_cursor < 5 {
                    self.content_cursor
                } else {
                    5
                };
                self.content_cursor = self.content_cursor - step;
            } else {
                self.content_cursor = self.content_cursor - 1;
            }
        }
    }

    /// Moves the cursor one line down a list of `len` lines, or five (fewer
    /// near the end) for a big step; never past the last line.
    pub fn move_selection_down(&mut self, len: usize, big_step: bool)
        ensures
            ({
                let last = if len > 0 {
                    len - 1
                } else {
                    0
                };
                let c = old(self).content_cursor;
                final(self).content_cursor == (if c >= last {
                    c as int
                } else if big_step {
                    if last - c >= 5 {
                        c + 5
                    } else {
                        last
                    }
                } else {
                    c + 1
                })
            }),
            final(self).content_render_from == old(self).content_render_from,
            final(self).content_render_items == old(self).content_render_items,
            final(self).window_size == old(self).window_size,
            final(self).safe_height == old(self).safe_height,
            final(self).path_label == old(self).path_label,
            final(self).desc_label == old(self).desc_label,
    {
        let last = len.saturating_sub(1);
        if self.content_cursor < last {
            if big_step {
                let room = last - self.content_cursor;
                let step = if room < 5 {
                    room
                } else {
                    5
                };
                self.content_cursor = self.content_cursor + step;
            } else {
                self.content_cursor = self.content_cursor + 1;
            }
        }
    }
}

} // verus!
