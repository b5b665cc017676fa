//! Background tile layout: turns a character-grid map plus a symbol legend
//! into tile placements, bottom row first.
//!
//! The map arrives as lines of symbols, top line first, and a legend that
//! assigns each symbol a category name.  Symbols whose category is "ground"
//! get the ground texture; every other symbol (including one the legend does
//! not mention) gets the default texture.  Rows are emitted in reverse line
//! order, so a placement's row number counts up from the bottom of the map.

use vstd::prelude::*;
use vstd::string::StrSliceExecFns;

verus! {

/// Sprite index of a ground tile.
pub const GROUND_TEXTURE: usize = 7;
/// Sprite index of every non-ground tile.
pub const DEFAULT_TEXTURE: usize = 0;

/// One background tile: its grid cell and the texture to draw there.
#[derive(Clone, Copy, Debug, PartialEq, Eq, Structural)]
pub struct TilePlacement {
    /// Column, counted from the left edge of the map.
    pub col: usize,
    /// Row, counted from the bottom of the map.
    pub row_from_bottom: usize,
    /// Index into the terrain sprite grid.
    pub texture: usize,
}

/// The category the legend assigns to a symbol: the first entry whose key
/// matches, or nothing.  With distinct keys this is plain map lookup.
pub open spec fn legend_lookup(legend: Seq<(char, String)>, c: char) -> Option<Seq<char>>
    decreases legend.len(),
{
    if legend.len() == 0 {
        None
    } else if legend[0].0 == c {
        Some(legend[0].1@)
    } else {
        legend_lookup(legend.drop_first(), c)
    }
}

/// The texture a symbol maps to: ground exactly when its category is the
/// word "ground", default otherwise.
pub open spec fn texture_for_spec(legend: Seq<(char, String)>, c: char) -> int {
    match legend_lookup(legend, c) {
        Some(category) => if category == "ground"@ {
            GROUND_TEXTURE as int
        } else {
            DEFAULT_TEXTURE as int
        },
        None => DEFAULT_TEXTURE as int,
    }
}

/// The tiles of one map row at the given bottom-up row number.
pub open spec fn row_tiles(legend: Seq<(char, String)>, row: Seq<char>, y: int) -> Seq<
    TilePlacement,
> {
    Seq::new(
        row.len(),
        |j: int|
            TilePlacement {
                col: j as usize,
                row_from_bottom: y as usize,
                texture: texture_for_spec(legend, row[j]) as usize,
            },
    )
}

/// The placements of the given lines, last line first, starting at row
/// number `y` and counting upward.
pub open spec fn layout_from(legend: Seq<(char, String)>, rows: Seq<String>, y: int) -> Seq<
    TilePlacement,
>
    decreases rows.len(),
{
    if rows.len() == 0 {
        Seq::empty()
    } else {
        row_tiles(legend, rows.last()@, y) + layout_from(legend, rows.drop_last(), y + 1)
    }
}

/// The placements of a whole map: its last line is the bottom row.
pub open spec fn layout_spec(legend: Seq<(char, String)>, rows: Seq<String>) -> Seq<
    TilePlacement,
> {
    layout_from(legend, rows, 0)
}

proof fn lemma_lookup_at(legend: Seq<(char, String)>, c: char, i: int)
    requires
        0 <= i < legend.len(),
        forall|k: int| 0 <= k < i ==> legend[k].0 != c,
        legend[i].0 == c,
    ensures
        legend_lookup(legend, c) == Some(legend[i].1@),
    decreases i,
{
    if i > 0 {
        assert(legend[0].0 != c);
        assert(forall|k: int|
            0 <= k < i - 1 ==> legend.drop_first()[k] == legend[k + 1] && legend[k + 1].0 != c);
        lemma_lookup_at(legend.drop_first(), c, i - 1);
    }
}

proof fn lemma_lookup_none(legend: Seq<(char, String)>, c: char)
    requires
        forall|k: int| 0 <= k < legend.len() ==> legend[k].0 != c,
    ensures
        legend_lookup(legend, c) is None,
    decreases legend.len(),
{
    if legend.len() > 0 {
        assert(forall|k: int|
            0 <= k < legend.len() - 1 ==> legend.drop_first()[k] == legend[k + 1] && legend[k
                + 1].0 != c);
        lemma_lookup_none(legend.drop_first(), c);
    }
}

/// Character-by-character string equality, decided without assuming anything
/// about either argument.
pub fn str_eq(a: &str, b: &str) -> (r: bool)
    ensures
        r == (a@ == b@),
{
    let na = a.unicode_len();
    let nb = b.unicode_len();
    if na != nb {
        return false;
    }
    let mut i: usize = 0;
    while i < na
        invariant
            na == a@.len(),
            nb == b@.len(),
            na == nb,
            i <= na,
            forall|k: int| 0 <= k < i ==> a@[k] == b@[k],
        decreases na - i,
    {
        if a.get_char(i) != b.get_char(i) {
            return false;
        }
        i += 1;
    }
    proof {
        assert(a@ =~= b@);
    }
    true
}

/// Looks a symbol up in the legend and returns its texture index.
pub fn texture_for(legend: &Vec<(char, String)>, c: char) -> (t: usize)
    ensures
        t == texture_for_spec(legend@, c),
{
    let mut i: usize = 0;
    while i < legend.len()
        invariant
            i <= legend@.len(),
            forall|k: int| 0 <= k < i ==> legend@[k].0 != c,
        decreases legend@.len() - i,
    {
        let entry: &(char, String) = &legend[i];
        if entry.0 == c {
            proof {
                lemma_lookup_at(legend@, c, i as int);
            }
            let ground = str_eq(entry.1.as_str(), "ground");
            if ground {
                return GROUND_TEXTURE;
            } else {
                return DEFAULT_TEXTURE;
            }
        }
        i += 1;
    }
    proof {
        lemma_lookup_none(legend@, c);
    }
    DEFAULT_TEXTURE
}

proof fn lemma_layout_prepend(legend: Seq<(char, String)>, r: String, rows: Seq<String>, y: int)
    ensures
        layout_from(legend, seq![r] + rows, y) == layout_from(legend, rows, y) + row_tiles(
            legend,
            r@,
            y + rows.len(),
        ),
    decreases rows.len(),
{
    let t = seq![r] + rows;
    assert(t.len() == 1 + rows.len());
    if rows.len() == 0 {
        assert(t.last() == r);
        assert(t.drop_last() =~= rows);
        assert(layout_from(legend, t, y) == row_tiles(legend, r@, y) + layout_from(
            legend,
            rows,
            y + 1,
        ));
        assert(layout_from(legend, rows, y + 1) == Seq::<TilePlacement>::empty());
        assert(layout_from(legend, rows, y) == Seq::<TilePlacement>::empty());
        assert(row_tiles(legend, r@, y) + Seq::<TilePlacement>::empty() =~= row_tiles(
            legend,
            r@,
            y,
        ));
        assert(Seq::<TilePlacement>::empty() + row_tiles(legend, r@, y) =~= row_tiles(
            legend,
            r@,
            y,
        ));
    } else {
        assert(t.last() == rows.last());
        assert(t.drop_last() =~= seq![r] + rows.drop_last());
        lemma_layout_prepend(legend, r, rows.drop_last(), y + 1);
        assert(layout_from(legend, t, y) == row_tiles(legend, rows.last()@, y) + layout_from(
            legend,
            seq![r] + rows.drop_last(),
            y + 1,
        ));
        assert(layout_from(legend, rows, y) == row_tiles(legend, rows.last()@, y) + layout_from(
            legend,
            rows.drop_last(),
            y + 1,
        ));
        assert(layout_from(legend, t, y) =~= layout_from(legend, rows, y) + row_tiles(
            legend,
            r@,
            y + rows.len(),
        ));
    }
}

/// Lays the whole map out: iterates the lines bottom-up, the symbols of each
/// line left to right, and collects one placement per symbol.
pub fn layout_tiles(legend: &Vec<(char, String)>, rows: &Vec<String>) -> (out: Vec<TilePlacement>)
    ensures
        out@ == layout_spec(legend@, rows@),
{
    let mut out: Vec<TilePlacement> = Vec::new();
    let n = rows.len();
    let mut y: usize = 0;
    while y < n
        invariant
            n == rows@.len(),
            y <= n,
            out@ == layout_from(legend@, rows@.skip(n - y), 0),
        decreases n - y,
    {
        let row: &String = &rows[n - 1 - y];
        let len = row.as_str().unicode_len();
        let ghost row_view: Seq<char> = row@;
        let mut x: usize = 0;
        while x < len
            invariant
                n == rows@.len(),
                y < n,
                len == row_view.len(),
                x <= len,
                row@ == row_view,
                row_view == rows@[n - 1 - y]@,
                out@ == layout_from(legend@, rows@.skip(n - y), 0) + row_tiles(
                    legend@,
                    row_view,
                    y as int,
                ).take(x as int),
            decreases len - x,
        {
            let c = row.as_str().get_char(x);
            let t = texture_for(legend, c);
            out.push(TilePlacement { col: x, row_from_bottom: y, texture: t });
            proof {
                assert(row_tiles(legend@, row_view, y as int).take(x + 1) =~= row_tiles(
                    legend@,
                    row_view,
                    y as int,
                ).take(x as int).push(
                    TilePlacement { col: x, row_from_bottom: y, texture: t },
                ));
            }
            x += 1;
        }
        proof {
            assert(row_tiles(legend@, row_view, y as int).take(len as int) =~= row_tiles(
                legend@,
                row_view,
                y as int,
            ));
            assert(rows@.skip(n - y - 1) =~= seq![rows@[n - 1 - y]] + rows@.skip(n - y));
            lemma_layout_prepend(legend@, rows@[n - 1 - y], rows@.skip(n - y), 0);
            assert(rows@.skip((n - y) as int).len() == y);
        }
        y += 1;
    }
    proof {
        assert(rows@.skip(0) =~= rows@);
    }
    out
}

} // verus!
