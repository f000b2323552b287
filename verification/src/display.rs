//! The screen buffer: a grid of single-character cells cut from a fixed
//! template, onto which panels are stamped before the whole picture is
//! rendered as one string.
//!
//! The template drawing is read for its measurements: everything before the
//! `#` terminator is the picture, the first newline fixes the row width, the
//! newline count fixes the height, and the second `+` of the frame fixes the
//! side of the square planting board drawn inside it.

use crate::terminal::dec_digits;
use crate::terminal::num_to_string;
use crate::ui::Grid;
use crate::ui::is_char_grid;
use crate::ui::to_grid;
use vstd::prelude::*;

verus! {

/// The fixed template drawing, ended by `#`.
pub open spec fn spec_grid_template() -> Seq<char> {
    "+--------------------+                 \n|                    |                 \n|                    |                 \n|                    |                 \n|                    |                 \n|                    |                 \n|                    |                 \n|                    |                 \n|                    |                 \n|                    |                 \n+--------------------+                 \n#"@
}

/// The picture part of a template: everything before the first `#`, or the
/// whole string when there is none.
pub open spec fn template_prefix(t: Seq<char>) -> Seq<char> {
    match t.index_of_first('#') {
        Some(i) => t.take(i),
        None => t,
    }
}

/// Number of occurrences of `c` in `s`.
pub open spec fn count_char_spec(s: Seq<char>, c: char) -> int
    decreases s.len(),
{
    if s.len() == 0 {
        0
    } else {
        count_char_spec(s.drop_last(), c) + if s.last() == c {
            1int
        } else {
            0int
        }
    }
}

/// The row width read off a picture: one past its first newline; a picture
/// without a newline is one single row, at least one cell wide.
pub open spec fn display_width(p: Seq<char>) -> int {
    match p.index_of_first('\n') {
        Some(i) => i + 1,
        None => if p.len() >= 1 {
            p.len() as int
        } else {
            1
        },
    }
}

/// Whether `i` is the position of the second `+` of the picture.
pub open spec fn is_second_plus(p: Seq<char>, i: int) -> bool {
    0 <= i < p.len() && p[i] == '+' && count_char_spec(p.take(i), '+') == 1
}

/// Whether `b` is the board side read off the picture: half the position of
/// the second `+`, less one, floored at zero; zero when there is no second
/// `+`.
pub open spec fn board_len_ok(p: Seq<char>, b: int) -> bool {
    if exists|i: int| is_second_plus(p, i) {
        exists|i: int| is_second_plus(p, i) && b == (if i / 2 >= 1 {
            i / 2 - 1
        } else {
            0
        })
    } else {
        b == 0
    }
}

/// All the cells of a row, run together.
pub open spec fn concat_cells(row: Seq<Seq<char>>) -> Seq<char>
    decreases row.len(),
{
    if row.len() == 0 {
        Seq::empty()
    } else {
        concat_cells(row.drop_last()) + row.last()
    }
}

/// The first `upto` rows of a grid, each run together, run together.
pub open spec fn concat_rows(g: Seq<Seq<Seq<char>>>, upto: int) -> Seq<char>
    decreases upto,
{
    if upto <= 0 {
        Seq::empty()
    } else {
        concat_rows(g, upto - 1) + concat_cells(g[upto - 1])
    }
}

/// A row overwritten from column `x` on with the given cells; cells that
/// would fall past the row's end are dropped.
pub open spec fn stamped_row(old_row: Seq<Seq<char>>, cells: Seq<Seq<char>>, x: int) -> Seq<
    Seq<char>,
> {
    Seq::new(
        old_row.len(),
        |k: int|
            if x <= k < x + cells.len() {
                cells[k - x]
            } else {
                old_row[k]
            },
    )
}

/// One repaint line: the cursor moved to `line`, then the row's text.
pub open spec fn refresh_line(row: Seq<Seq<char>>, line: int) -> Seq<char> {
    "\x1B["@ + dec_digits(line) + "H"@ + concat_cells(row) + "\n"@
}

/// The repaint text of the first `upto` rows, each on its own line.
pub open spec fn refresh_text(g: Seq<Seq<Seq<char>>>, upto: int) -> Seq<char>
    decreases upto,
{
    if upto <= 0 {
        Seq::empty()
    } else {
        refresh_text(g, upto - 1) + refresh_line(g[upto - 1], upto)
    }
}

/// The screen buffer, its size, and the side of the board drawn on it.
pub struct Display {
    display_size: (usize, usize),
    display: Grid<String>,
    board_size: (usize, usize),
}

impl Display {
    /// The cells of the buffer, rows first.
    pub closed spec fn spec_display(self) -> Seq<Seq<Seq<char>>> {
        self.display.deep_view()
    }

    /// Width and height of the buffer.
    pub closed spec fn spec_display_size(self) -> (usize, usize) {
        self.display_size
    }

    /// Width and height of the board area.
    pub closed spec fn spec_board_size(self) -> (usize, usize) {
        self.board_size
    }

    /// A usable buffer is at least one cell wide.
    pub open spec fn wf(self) -> bool {
        self.spec_display_size().0 >= 1
    }

    fn grid_template() -> (s: String)
        ensures
            s@ == spec_grid_template(),
    {
        String::from_str(
            "+--------------------+                 \n|                    |                 \n|                    |                 \n|                    |                 \n|                    |                 \n|                    |                 \n|                    |                 \n|                    |                 \n|                    |                 \n|                    |                 \n+--------------------+                 \n#",
        )
    }

    /// Reads the template's measurements and cuts its picture into the
    /// buffer grid.
    pub fn new() -> (r: Display)
        ensures
            r.wf(),
            is_char_grid(
                r.spec_display(),
                template_prefix(spec_grid_template()),
                r.spec_display_size().0 as int,
            ),
            r.spec_display_size().0 as int == display_width(template_prefix(spec_grid_template())),
            r.spec_display_size().1 as int == count_char_spec(
                template_prefix(spec_grid_template()),
                '\n',
            ),
            r.spec_board_size().1 == r.spec_board_size().0,
            board_len_ok(template_prefix(spec_grid_template()), r.spec_board_size().0 as int),
    {
        let template = Self::grid_template();
        let prefix: String = match find_char(template.as_str(), '#') {
            Some(i) => {
                proof {
                    template@.index_of_first_ensures('#');
                }
                let p = template.as_str().substring_char(0, i);
                proof {
                    assert(p@ =~= template_prefix(spec_grid_template()));
                }
                p.to_owned()
            },
            None => template,
        };
        let ghost pv = template_prefix(spec_grid_template());
        let prefix_len = prefix.as_str().unicode_len();
        let width: usize = match find_char(prefix.as_str(), '\n') {
            Some(i) => {
                proof {
                    prefix@.index_of_first_ensures('\n');
                }
                i + 1
            },
            None => {
                if prefix_len >= 1 {
                    prefix_len
                } else {
                    1
                }
            },
        };
        let height = count_char(prefix.as_str(), '\n');
        let board_length: usize = match nth_char_index(prefix.as_str(), '+', 1) {
            Some(p) => {
                let h = p / 2;
                proof {
                    assert(is_second_plus(pv, p as int));
                }
                if h >= 1 {
                    h - 1
                } else {
                    0
                }
            },
            None => {
                proof {
                    assert forall|i: int| !is_second_plus(pv, i) by {
                        if is_second_plus(pv, i) {
                            lemma_count_char_from(pv, '+', i);
                        }
                    }
                }
                0
            },
        };
        let display = to_grid(prefix, width);
        Display { display_size: (width, height), display, board_size: (board_length, board_length) }
    }

    /// Overwrites part of one buffer row, from column `start.0` on, with the
    /// given cells; cells past the buffer's width are dropped.
    pub fn stamp_row(&mut self, row: &Vec<String>, start: (usize, usize))
        requires
            start.1 < old(self).spec_display().len(),
        ensures
            final(self).spec_display_size() == old(self).spec_display_size(),
            final(self).spec_board_size() == old(self).spec_board_size(),
            final(self).spec_display().len() == old(self).spec_display().len(),
            forall|ri: int| 0 <= ri < old(self).spec_display().len() && ri != start.1
                ==> final(self).spec_display()[ri] == old(self).spec_display()[ri],
            final(self).spec_display()[start.1 as int] == stamped_row(
                old(self).spec_display()[start.1 as int],
                row.deep_view(),
                start.0 as int,
            ),
    {
        let y = start.1;
        let x = start.0;
        let width = self.display[y].len();
        let ghost old_row = self.display@[y as int].deep_view();
        let mut new_row: Vec<String> = Vec::new();
        let mut k: usize = 0;
        while k < width
            invariant
                k <= width,
                y < self.display@.len(),
                width == self.display@[y as int]@.len(),
                old_row == self.display@[y as int].deep_view(),
                new_row.deep_view().len() == k,
                forall|a: int| 0 <= a < k ==> #[trigger] new_row.deep_view()[a] == stamped_row(
                    old_row,
                    row.deep_view(),
                    x as int,
                )[a],
            decreases width - k,
        {
            let ghost prev = new_row.deep_view();
            if k >= x && k - x < row.len() {
                new_row.push(row[k - x].clone());
            } else {
                new_row.push(self.display[y][k].clone());
            }
            proof {
                assert(new_row.deep_view() =~= prev.push(new_row.deep_view().last()));
                assert(new_row.deep_view()[k as int] == stamped_row(
                    old_row,
                    row.deep_view(),
                    x as int,
                )[k as int]);
            }
            k = k + 1;
        }
        let ghost old_display = self.display.deep_view();
        self.display[y] = new_row;
        proof {
            assert(new_row.deep_view() =~= stamped_row(old_row, row.deep_view(), x as int));
            assert(self.display.deep_view() =~= old_display.update(
                y as int,
                stamped_row(old_row, row.deep_view(), x as int),
            ));
        }
    }

    /// Stamps a whole grid onto the buffer, its top-left cell at `top_left`;
    /// each row is stamped as in [`Display::stamp_row`].
    pub fn stamp(&mut self, grid: Grid<String>, top_left: (usize, usize))
        requires
            top_left.1 + grid.deep_view().len() <= old(self).spec_display().len(),
        ensures
            final(self).spec_display_size() == old(self).spec_display_size(),
            final(self).spec_board_size() == old(self).spec_board_size(),
            final(self).spec_display().len() == old(self).spec_display().len(),
            forall|ri: int| 0 <= ri < old(self).spec_display().len()
                && !(top_left.1 <= ri < top_left.1 + grid.deep_view().len())
                ==> final(self).spec_display()[ri] == old(self).spec_display()[ri],
            forall|ri: int| top_left.1 <= ri < top_left.1 + grid.deep_view().len()
                ==> final(self).spec_display()[ri] == stamped_row(
                    old(self).spec_display()[ri],
                    grid.deep_view()[ri - top_left.1],
                    top_left.0 as int,
                ),
    {
        let n = grid.len();
        let d_len = self.display.len();
        let mut index: usize = 0;
        while index < n
            invariant
                index <= n,
                n == grid.deep_view().len(),
                d_len == old(self).spec_display().len(),
                top_left.1 + n <= d_len,
                self.spec_display_size() == old(self).spec_display_size(),
                self.spec_board_size() == old(self).spec_board_size(),
                self.spec_display().len() == old(self).spec_display().len(),
                forall|ri: int| 0 <= ri < old(self).spec_display().len()
                    && !(top_left.1 <= ri < top_left.1 + index)
                    ==> self.spec_display()[ri] == old(self).spec_display()[ri],
                forall|ri: int| top_left.1 <= ri < top_left.1 + index
                    ==> self.spec_display()[ri] == stamped_row(
                        old(self).spec_display()[ri],
                        grid.deep_view()[ri - top_left.1],
                        top_left.0 as int,
                    ),
            decreases n - index,
        {
            self.stamp_row(&grid[index], (top_left.0, top_left.1 + index));
            index = index + 1;
        }
    }

    /// Puts the buffer back to the template picture, cut at the buffer's own
    /// width.
    pub fn reset_display(&mut self)
        requires
            old(self).wf(),
        ensures
            final(self).spec_display_size() == old(self).spec_display_size(),
            final(self).spec_board_size() == old(self).spec_board_size(),
            is_char_grid(
                final(self).spec_display(),
                spec_grid_template(),
                old(self).spec_display_size().0 as int,
            ),
    {
        self.display = to_grid(Self::grid_template(), self.display_size.0);
    }

    /// Width and height of the board area.
    pub fn board_size(&self) -> (r: (usize, usize))
        ensures
            r == self.spec_board_size(),
    {
        self.board_size
    }

    /// All the buffer's cells, run together into one string.
    pub fn to_string(&self) -> (r: String)
        ensures
            r@ == concat_rows(self.spec_display(), self.spec_display().len() as int),
    {
        let ghost g = self.spec_display();
        let mut out = String::new();
        let n = self.display.len();
        let mut ri: usize = 0;
        while ri < n
            invariant
                ri <= n,
                n == g.len(),
                g == self.spec_display(),
                out@ == concat_rows(g, ri as int),
            decreases n - ri,
        {
            let row_len = self.display[ri].len();
            let mut k: usize = 0;
            while k < row_len
                invariant
                    k <= row_len,
                    ri < n,
                    n == g.len(),
                    g == self.spec_display(),
                    row_len == g[ri as int].len(),
                    out@ == concat_rows(g, ri as int) + concat_cells(g[ri as int].take(k as int)),
                decreases row_len - k,
            {
                out.append(self.display[ri][k].as_str());
                proof {
                    let partial = g[ri as int].take(k as int + 1);
                    assert(partial.drop_last() =~= g[ri as int].take(k as int));
                    assert(partial.last() == g[ri as int][k as int]);
                    assert(out@ =~= concat_rows(g, ri as int) + concat_cells(partial));
                }
                k = k + 1;
            }
            proof {
                assert(g[ri as int].take(row_len as int) =~= g[ri as int]);
                assert(out@ =~= concat_rows(g, ri as int + 1));
            }
            ri = ri + 1;
        }
        out
    }

    /// The repaint text: every buffer row prefixed by the escape that moves
    /// the cursor to its line.
    pub fn refresh(&self) -> (r: String)
        ensures
            r@ == refresh_text(self.spec_display(), self.spec_display().len() as int),
    {
        let ghost g = self.spec_display();
        let mut out = String::new();
        let n = self.display.len();
        let mut ri: usize = 0;
        while ri < n
            invariant
                ri <= n,
                n == g.len(),
                g == self.spec_display(),
                out@ == refresh_text(g, ri as int),
            decreases n - ri,
        {
            out.append("\x1B[");
            let line = num_to_string(ri + 1);
            out.append(line.as_str());
            out.append("H");
            let ghost head = refresh_text(g, ri as int) + "\x1B["@ + dec_digits(ri as int + 1)
                + "H"@;
            proof {
                assert(out@ =~= head);
                assert(g[ri as int].take(0int) =~= Seq::<Seq<char>>::empty());
            }
            let row_len = self.display[ri].len();
            let mut k: usize = 0;
            while k < row_len
                invariant
                    k <= row_len,
                    ri < n,
                    n == g.len(),
                    g == self.spec_display(),
                    row_len == g[ri as int].len(),
                    head == refresh_text(g, ri as int) + "\x1B["@ + dec_digits(ri as int + 1)
                        + "H"@,
                    out@ == head + concat_cells(g[ri as int].take(k as int)),
                decreases row_len - k,
            {
                out.append(self.display[ri][k].as_str());
                proof {
                    let partial = g[ri as int].take(k as int + 1);
                    assert(partial.drop_last() =~= g[ri as int].take(k as int));
                    assert(partial.last() == g[ri as int][k as int]);
                    assert(out@ =~= head + concat_cells(partial));
                }
                k = k + 1;
            }
            out.append("\n");
            proof {
                assert(g[ri as int].take(row_len as int) =~= g[ri as int]);
                assert(out@ =~= refresh_text(g, ri as int + 1));
            }
            ri = ri + 1;
        }
        out
    }
}

fn find_char(s: &str, c: char) -> (r: Option<usize>)
    ensures
        r matches Some(i) ==> s@.index_of_first(c) == Some(i as int),
        r is None ==> s@.index_of_first(c) is None,
{
    let n = s.unicode_len();
    let mut i: usize = 0;
    while i < n
        invariant
            i <= n,
            n == s@.len(),
            forall|j: int| 0 <= j < i ==> s@[j] != c,
        decreases n - i,
    {
        if s.get_char(i) == c {
            proof {
                s@.index_of_first_ensures(c);
                assert(s@[i as int] == c);
                assert(s@.contains(c));
                let idx = s@.index_of_first(c).unwrap();
                assert(!(i < idx) && !(idx < i));
            }
            return Some(i);
        }
        i = i + 1;
    }
    proof {
        s@.index_of_first_ensures(c);
        if s@.contains(c) {
            let j = choose|j: int| 0 <= j < s@.len() && s@[j] == c;
            assert(false);
        }
    }
    None
}

fn count_char(s: &str, c: char) -> (r: usize)
    ensures
        r == count_char_spec(s@, c),
{
    let n = s.unicode_len();
    let mut cnt: usize = 0;
    let mut i: usize = 0;
    while i < n
        invariant
            i <= n,
            n == s@.len(),
            cnt <= i,
            cnt == count_char_spec(s@.take(i as int), c),
        decreases n - i,
    {
        proof {
            assert(s@.take(i as int + 1).drop_last() =~= s@.take(i as int));
            assert(s@.take(i as int + 1).last() == s@[i as int]);
        }
        if s.get_char(i) == c {
            cnt = cnt + 1;
        }
        i = i + 1;
    }
    proof {
        assert(s@.take(n as int) =~= s@);
    }
    cnt
}

fn nth_char_index(s: &str, c: char, nth: usize) -> (r: Option<usize>)
    ensures
        r matches Some(i) ==> i < s@.len() && s@[i as int] == c && count_char_spec(
            s@.take(i as int),
            c,
        ) == nth,
        r is None ==> count_char_spec(s@, c) <= nth,
{
    let n = s.unicode_len();
    let mut cnt: usize = 0;
    let mut i: usize = 0;
    while i < n
        invariant
            i <= n,
            n == s@.len(),
            cnt <= i,
            cnt <= nth,
            cnt == count_char_spec(s@.take(i as int), c),
        decreases n - i,
    {
        proof {
            assert(s@.take(i as int + 1).drop_last() =~= s@.take(i as int));
            assert(s@.take(i as int + 1).last() == s@[i as int]);
        }
        if s.get_char(i) == c {
            if cnt == nth {
                return Some(i);
            }
            cnt = cnt + 1;
        }
        i = i + 1;
    }
    proof {
        assert(s@.take(n as int) =~= s@);
    }
    None
}

/// A character found at position `i` raises the whole count above the count
/// of the prefix before it.
proof fn lemma_count_char_from(p: Seq<char>, c: char, i: int)
    requires
        0 <= i < p.len(),
        p[i] == c,
    ensures
        count_char_spec(p, c) >= count_char_spec(p.take(i), c) + 1,
    decreases p.len(),
{
    if i == p.len() - 1 {
        assert(p.take(i) =~= p.drop_last());
        assert(p.last() == c);
    } else {
        lemma_count_char_from(p.drop_last(), c, i);
        assert(p.drop_last().take(i) =~= p.take(i));
        assert(p.last() == c || p.last() != c);
        assert(count_char_spec(p, c) >= count_char_spec(p.drop_last(), c));
    }
}

} // verus!
