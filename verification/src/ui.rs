//! Grids of single-cell strings, the unit the display is composed from.

use vstd::prelude::*;

verus! {

/// A rectangular arrangement of values, rows first.
pub type Grid<T> = Vec<Vec<T>>;

/// Whether `g` is `s` cut into rows of `w` single-character cells: all rows
/// are full except a shorter final one, and the cell at row `ri`, column `k`
/// holds exactly the character `s[ri * w + k]`.
pub open spec fn is_char_grid(g: Seq<Seq<Seq<char>>>, s: Seq<char>, w: int) -> bool {
    &&& s.len() <= g.len() * w
    &&& g.len() * w < s.len() + w
    &&& forall|ri: int| 0 <= ri < g.len()
        ==> #[trigger] g[ri].len() == if (ri + 1) * w <= s.len() {
            w
        } else {
            s.len() - ri * w
        }
    &&& forall|ri: int, k: int| 0 <= ri < g.len() && 0 <= k < g[ri].len()
        ==> #[trigger] g[ri][k] == seq![s[ri * w + k]]
}

/// Cuts a string into a grid of single-character cells, `row_length` cells to
/// a row; the final row holds whatever remains.
pub fn to_grid(s: String, row_length: usize) -> (r: Grid<String>)
    requires
        row_length >= 1,
    ensures
        is_char_grid(r.deep_view(), s@, row_length as int),
{
    let w = row_length;
    let ghost wi = w as int;
    let n = s.as_str().unicode_len();
    let mut rows: Grid<String> = Vec::new();
    let mut i: usize = 0;
    proof {
        assert(rows.deep_view() =~= Seq::<Seq<Seq<char>>>::empty());
        assert(s@.take(0int) =~= Seq::<char>::empty());
    }
    while i < n
        invariant
            wi == w as int,
            i <= n,
            n == s@.len(),
            w >= 1,
            is_char_grid(rows.deep_view(), s@.take(i as int), wi),
            i == n || i == rows.deep_view().len() * wi,
        decreases n - i,
    {
        let ghost start = i as int;
        let ghost old_rows = rows.deep_view();
        let mut row: Vec<String> = Vec::new();
        let mut j: usize = i;
        while j < n && j - i < w
            invariant
                start == i as int,
                i <= j <= n,
                i < n,
                n == s@.len(),
                j - i <= w,
                row.deep_view().len() == j - i,
                forall|k: int| 0 <= k < j - i
                    ==> #[trigger] row.deep_view()[k] == seq![s@[start + k]],
            decreases n - j,
        {
            let c = s.as_str().get_char(j);
            let mut cell = String::new();
            crate::terminal::push_char(&mut cell, c);
            let ghost old_row = row.deep_view();
            proof {
                assert(cell@ =~= seq![s@[j as int]]);
            }
            row.push(cell);
            proof {
                assert(row.deep_view() =~= old_row.push(seq![s@[j as int]]));
                assert forall|k: int| 0 <= k < (j - i) + 1 implies #[trigger] row.deep_view()[k]
                    == seq![s@[start + k]] by {
                    if k < j - i {
                        assert(row.deep_view()[k] == old_row[k]);
                    } else {
                        assert(row.deep_view()[k] == seq![s@[j as int]]);
                        assert(start + k == j as int);
                    }
                }
            }
            j = j + 1;
        }
        let ghost row_v = row.deep_view();
        let ghost jv = j as int;
        proof {
            // the inner loop stopped either at the row width or at the end of
            // the string, and consumed at least one character
            assert(jv == n || jv - start == wi);
            assert(jv - start >= 1);
        }
        rows.push(row);
        proof {
            let g = rows.deep_view();
            let t = s@.take(jv);
            assert(g =~= old_rows.push(row_v));
            assert(g.len() * wi == old_rows.len() * wi + wi) by (nonlinear_arith)
                requires
                    g.len() == old_rows.len() + 1,
            ;
            assert(start == old_rows.len() * wi);
            assert(t.len() <= g.len() * wi && g.len() * wi < t.len() + wi);
            assert forall|ri: int| 0 <= ri < g.len() implies #[trigger] g[ri].len() == (if (ri + 1)
                * wi <= t.len() {
                wi
            } else {
                t.len() - ri * wi
            }) by {
                if ri < old_rows.len() {
                    assert(g[ri] == old_rows[ri]);
                    assert((ri + 1) * wi <= old_rows.len() * wi) by (nonlinear_arith)
                        requires
                            ri + 1 <= old_rows.len() && wi >= 1,
                    ;
                    assert(old_rows[ri].len() == wi);
                } else {
                    assert(g[ri] == row_v);
                    assert(ri * wi == start);
                    assert((ri + 1) * wi == start + wi) by (nonlinear_arith)
                        requires
                            ri * wi == start,
                    ;
                }
            }
            assert forall|ri: int, k: int| 0 <= ri < g.len() && 0 <= k < g[ri].len()
                implies #[trigger] g[ri][k] == seq![t[ri * wi + k]] by {
                if ri < old_rows.len() {
                    assert(g[ri] == old_rows[ri]);
                    assert(old_rows[ri][k] == seq![s@.take(start)[ri * wi + k]]);
                    assert(0 <= ri * wi + k < start) by (nonlinear_arith)
                        requires
                            0 <= ri && ri + 1 <= old_rows.len() && 0 <= k < wi
                                && k < old_rows[ri].len() && old_rows[ri].len() <= wi
                                && start == old_rows.len() * wi,
                    ;
                } else {
                    assert(g[ri] == row_v);
                    assert(ri * wi == start);
                    assert(row_v[k] == seq![s@[start + k]]);
                }
            }
            assert(is_char_grid(g, t, wi));
            if jv < n {
                assert(row_v.len() == wi);
                assert(jv == g.len() * wi);
            }
        }
        i = j;
    }
    proof {
        assert(s@.take(i as int) =~= s@);
    }
    rows
}

/// A grid of the given width and height whose every cell is a single space.
pub fn empty_string_grid(size: (usize, usize)) -> (r: Grid<String>)
    ensures
        r.deep_view().len() == size.1,
        forall|ri: int| 0 <= ri < size.1 ==> #[trigger] r.deep_view()[ri].len() == size.0,
        forall|ri: int, k: int| 0 <= ri < size.1 && 0 <= k < size.0
            ==> #[trigger] r.deep_view()[ri][k] == " "@,
{
    let mut rows: Grid<String> = Vec::new();
    let mut ri: usize = 0;
    while ri < size.1
        invariant
            ri <= size.1,
            rows.deep_view().len() == ri,
            forall|a: int| 0 <= a < ri ==> #[trigger] rows.deep_view()[a].len() == size.0,
            forall|a: int, k: int| 0 <= a < ri && 0 <= k < size.0
                ==> #[trigger] rows.deep_view()[a][k] == " "@,
        decreases size.1 - ri,
    {
        let mut row: Vec<String> = Vec::new();
        let mut k: usize = 0;
        while k < size.0
            invariant
                k <= size.0,
                row.deep_view().len() == k,
                forall|a: int| 0 <= a < k ==> #[trigger] row.deep_view()[a] == " "@,
            decreases size.0 - k,
        {
            let cell = String::from_str(" ");
            let ghost old_row = row.deep_view();
            row.push(cell);
            proof {
                assert(row.deep_view() =~= old_row.push(" "@));
            }
            k = k + 1;
        }
        let ghost old_rows = rows.deep_view();
        let ghost row_v = row.deep_view();
        rows.push(row);
        proof {
            assert(rows.deep_view() =~= old_rows.push(row_v));
        }
        ri = ri + 1;
    }
    rows
}

} // verus!
