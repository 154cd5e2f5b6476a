//! Sub-character glyph selection: a total function from the candle's body and
//! wick boundaries (as exact rationals over the row grid) and a row index to
//! one symbol of a closed set, giving vertical half-cell resolution.
use vstd::prelude::*;

verus! {

/// One display cell's worth of candle, split into a top and a bottom half.
#[derive(Clone, Copy, PartialEq, Eq, Structural, Debug)]
pub enum Glyph {
    /// Nothing of the candle crosses this cell.
    Void,
    /// Thin vertical bar: wick through the whole cell.
    Wick,
    /// Thick vertical bar: body through the whole cell.
    Body,
    /// Body in the top half only.
    HalfBodyTop,
    /// Body in the bottom half only.
    HalfBodyBottom,
    /// Wick in the top half only.
    HalfWickTop,
    /// Wick in the bottom half only.
    HalfWickBottom,
    /// Body in the bottom half, wick in the top half.
    BodyBottomWickTop,
    /// Body in the top half, wick in the bottom half.
    BodyTopWickBottom,
    /// Wick marker on the leftmost column of a multi-column candle.
    LeftEighthWick,
    /// Wick marker on the rightmost column of a multi-column candle.
    RightEighthWick,
    /// Body edge on the leftmost column of a multi-column candle.
    LeftHalfBody,
    /// Body edge on the rightmost column of a multi-column candle.
    RightHalfBody,
}

/// Glyph for the cell spanning `[(y-1)*d, y*d]` in axis units, for a candle
/// whose wick spans `[lo, hi]` and body `[bmin, bmax]` (all numerators over
/// the common denominator `d`). Rows count from the bottom, `y >= 1`.
///
/// A boundary falling strictly inside a cell yields a half glyph when the
/// covered part is under half the cell; a body covering more than half its
/// cap cell shows as full body unless the wick runs a whole cell beyond it,
/// in which case the wick's continuity wins.
pub open spec fn glyph_spec(lo: int, bmin: int, bmax: int, hi: int, d: int, y: int) -> Glyph {
    let top = y * d;
    let bot = (y - 1) * d;
    let mid2 = (2 * y - 1) * d;
    if hi <= bot || lo >= top {
        Glyph::Void
    } else if bmin <= bot && bmax >= top {
        Glyph::Body
    } else if bmax <= bot || bmin >= top {
        // wick only
        if lo <= bot && hi >= top {
            Glyph::Wick
        } else if lo <= bot {
            if 2 * hi - 2 * bot >= d { Glyph::Wick } else { Glyph::HalfWickBottom }
        } else if hi >= top {
            if 2 * top - 2 * lo >= d { Glyph::Wick } else { Glyph::HalfWickTop }
        } else {
            if 2 * hi <= mid2 { Glyph::HalfWickBottom } else { Glyph::HalfWickTop }
        }
    } else if bmin > bot && bmax < top {
        // the whole body sits inside this cell
        if 2 * bmax <= mid2 {
            if 2 * hi > mid2 { Glyph::BodyBottomWickTop } else { Glyph::HalfBodyBottom }
        } else if 2 * bmin >= mid2 {
            if 2 * lo < mid2 { Glyph::BodyTopWickBottom } else { Glyph::HalfBodyTop }
        } else {
            Glyph::Body
        }
    } else if bmin > bot {
        // bottom cap: the body enters from above, covering `top - bmin`
        if lo <= bot - d {
            // the wick runs a full cell further down: its line wins
            Glyph::Wick
        } else if lo <= bot {
            // the wick crosses the cell bottom
            if 2 * (top - bmin) > d { Glyph::BodyTopWickBottom } else { Glyph::Wick }
        } else if lo < bmin {
            // the wick ends inside the cell
            if 2 * (top - bmin) >= d { Glyph::Body }
            else if 4 * (top - bmin) >= d { Glyph::BodyTopWickBottom }
            else if 2 * (top - lo) >= d { Glyph::Wick }
            else { Glyph::HalfWickTop }
        } else {
            // no wick below the body
            if 2 * (top - bmin) > d { Glyph::Body } else { Glyph::HalfBodyTop }
        }
    } else {
        // top cap: the body enters from below, covering `bmax - bot`
        if hi >= top + d {
            Glyph::Wick
        } else if hi >= top {
            if 2 * (bmax - bot) > d { Glyph::BodyBottomWickTop } else { Glyph::Wick }
        } else if hi > bmax {
            if 2 * (bmax - bot) >= d { Glyph::Body }
            else if 4 * (bmax - bot) >= d { Glyph::BodyBottomWickTop }
            else if 2 * (hi - bot) >= d { Glyph::Wick }
            else { Glyph::HalfWickBottom }
        } else {
            if 2 * (bmax - bot) > d { Glyph::Body } else { Glyph::HalfBodyBottom }
        }
    }
}

/// Stretched-mode glyph for column `col` of a candle spanning `width`
/// columns: on the leftmost and rightmost column of a multi-column candle,
/// full wick and body cells become the left/right eighth-block wick markers
/// and half-block body edges, preserving the visual identity of a fat candle;
/// middle columns and single-column candles keep the plain glyphs.
pub open spec fn stretched_glyph_spec(lo: int, bmin: int, bmax: int, hi: int, d: int, y: int, col: int, width: int) -> Glyph {
    let g = glyph_spec(lo, bmin, bmax, hi, d, y);
    if width >= 2 && col == 0 {
        match g {
            Glyph::Wick => Glyph::LeftEighthWick,
            Glyph::Body => Glyph::LeftHalfBody,
            _ => g,
        }
    } else if width >= 2 && col == width - 1 {
        match g {
            Glyph::Wick => Glyph::RightEighthWick,
            Glyph::Body => Glyph::RightHalfBody,
            _ => g,
        }
    } else {
        g
    }
}

/// Executable stretched glyph selection; exactly the specification above.
pub fn glyph_at_stretched(lo: i64, bmin: i64, bmax: i64, hi: i64, d: i64, y: u16, col: u16, width: u16) -> (r: Glyph)
    requires
        0 < d <= 0x10_0000_0000,
        1 <= y,
        lo <= bmin <= bmax <= hi,
        -0x10_0000_0000_0000 <= lo,
        hi <= 0x10_0000_0000_0000,
    ensures
        r == stretched_glyph_spec(lo as int, bmin as int, bmax as int, hi as int, d as int,
            y as int, col as int, width as int),
{
    let g = glyph_at(lo, bmin, bmax, hi, d, y);
    if width >= 2 && col == 0 {
        match g {
            Glyph::Wick => Glyph::LeftEighthWick,
            Glyph::Body => Glyph::LeftHalfBody,
            _ => g,
        }
    } else if width >= 2 && col == width - 1 {
        match g {
            Glyph::Wick => Glyph::RightEighthWick,
            Glyph::Body => Glyph::RightHalfBody,
            _ => g,
        }
    } else {
        g
    }
}

/// Executable glyph selection; exactly the specification above.
pub fn glyph_at(lo: i64, bmin: i64, bmax: i64, hi: i64, d: i64, y: u16) -> (r: Glyph)
    requires
        0 < d <= 0x10_0000_0000,
        1 <= y,
        lo <= bmin <= bmax <= hi,
        -0x10_0000_0000_0000 <= lo,
        hi <= 0x10_0000_0000_0000,
    ensures
        r == glyph_spec(lo as int, bmin as int, bmax as int, hi as int, d as int, y as int),
{
    proof {
        assert(-0x2_0000 * 0x10_0000_0000 <= (y - 2) * d <= 0x2_0000 * 0x10_0000_0000
            && (2 * y as int + 1) * d <= 0x2_0000 * 0x10_0000_0000
            && (y as int - 1) * d <= 0x2_0000 * 0x10_0000_0000
            && -0x10_0000_0000 <= (y as int - 1) * d
            && y as int * d <= 0x2_0000 * 0x10_0000_0000
            && 0 <= y as int * d
            && (y as int + 1) * d <= 0x2_0000 * 0x10_0000_0000
            && 0 <= (2 * y as int - 1) * d <= 0x2_0000 * 0x10_0000_0000) by (nonlinear_arith)
            requires 1 <= y < 0x1_0000, 0 < d <= 0x10_0000_0000,
        ;
    }
    let top: i64 = y as i64 * d;
    let bot: i64 = (y as i64 - 1) * d;
    let mid2: i64 = (2 * y as i64 - 1) * d;
    if hi <= bot || lo >= top {
        Glyph::Void
    } else if bmin <= bot && bmax >= top {
        Glyph::Body
    } else if bmax <= bot || bmin >= top {
        if lo <= bot && hi >= top {
            Glyph::Wick
        } else if lo <= bot {
            if 2 * hi - 2 * bot >= d { Glyph::Wick } else { Glyph::HalfWickBottom }
        } else if hi >= top {
            if 2 * top - 2 * lo >= d { Glyph::Wick } else { Glyph::HalfWickTop }
        } else {
            if 2 * hi <= mid2 { Glyph::HalfWickBottom } else { Glyph::HalfWickTop }
        }
    } else if bmin > bot && bmax < top {
        if 2 * bmax <= mid2 {
            if 2 * hi > mid2 { Glyph::BodyBottomWickTop } else { Glyph::HalfBodyBottom }
        } else if 2 * bmin >= mid2 {
            if 2 * lo < mid2 { Glyph::BodyTopWickBottom } else { Glyph::HalfBodyTop }
        } else {
            Glyph::Body
        }
    } else if bmin > bot {
        if lo <= bot - d {
            Glyph::Wick
        } else if lo <= bot {
            if 2 * (top - bmin) > d { Glyph::BodyTopWickBottom } else { Glyph::Wick }
        } else if lo < bmin {
            if 2 * (top - bmin) >= d { Glyph::Body }
            else if 4 * (top - bmin) >= d { Glyph::BodyTopWickBottom }
            else if 2 * (top - lo) >= d { Glyph::Wick }
            else { Glyph::HalfWickTop }
        } else {
            if 2 * (top - bmin) > d { Glyph::Body } else { Glyph::HalfBodyTop }
        }
    } else {
        if hi >= top + d {
            Glyph::Wick
        } else if hi >= top {
            if 2 * (bmax - bot) > d { Glyph::BodyBottomWickTop } else { Glyph::Wick }
        } else if hi > bmax {
            if 2 * (bmax - bot) >= d { Glyph::Body }
            else if 4 * (bmax - bot) >= d { Glyph::BodyBottomWickTop }
            else if 2 * (hi - bot) >= d { Glyph::Wick }
            else { Glyph::HalfWickBottom }
        } else {
            if 2 * (bmax - bot) > d { Glyph::Body } else { Glyph::HalfBodyBottom }
        }
    }
}

/// Renders one candle as a single-column run of glyphs, top row first, for a
/// chart area of `rows` rows showing the price range `min..max`. Every cell
/// is exactly the glyph selected by `glyph_spec` on the candle's boundaries
/// mapped to axis units.
pub fn render_candle_column(c: &crate::candle::Candle, min: i64, max: i64, rows: u16) -> (r: Vec<Glyph>)
    requires
        min < max,
        max - min <= 0x10_0000_0000,
        min <= c.low <= c.high <= max,
        c.wf(),
        1 <= rows,
    ensures
        r.len() == rows,
        forall|k: int| 0 <= k < rows ==> #[trigger] r[k] == glyph_spec(
            (c.low - min) * rows,
            ((if c.open <= c.close { c.open } else { c.close }) - min) * rows,
            ((if c.open <= c.close { c.close } else { c.open }) - min) * rows,
            (c.high - min) * rows,
            max - min,
            rows - k,
        ),
{
    let d: i64 = max - min;
    let bmin_p: i64 = if c.open <= c.close { c.open } else { c.close };
    let bmax_p: i64 = if c.open <= c.close { c.close } else { c.open };
    proof {
        assert(0 <= (c.low - min) * rows <= (bmin_p - min) * rows <= (bmax_p - min) * rows
            <= (c.high - min) * rows <= 0x10_0000_0000 * 0x1_0000) by (nonlinear_arith)
            requires
                0 <= c.low - min <= bmin_p - min <= bmax_p - min <= c.high - min <= 0x10_0000_0000,
                1 <= rows < 0x1_0000,
        ;
    }
    let lo: i64 = (c.low - min) * rows as i64;
    let bmin: i64 = (bmin_p - min) * rows as i64;
    let bmax: i64 = (bmax_p - min) * rows as i64;
    let hi: i64 = (c.high - min) * rows as i64;
    let mut out: Vec<Glyph> = Vec::new();
    let mut y: u16 = rows;
    while y > 0
        invariant
            y <= rows,
            out.len() == rows - y,
            d == max - min,
            0 < d <= 0x10_0000_0000,
            lo == (c.low - min) * rows,
            bmin == (bmin_p - min) * rows,
            bmax == (bmax_p - min) * rows,
            hi == (c.high - min) * rows,
            bmin_p == (if c.open <= c.close { c.open } else { c.close }),
            bmax_p == (if c.open <= c.close { c.close } else { c.open }),
            lo <= bmin <= bmax <= hi,
            -0x10_0000_0000_0000 <= lo,
            hi <= 0x10_0000_0000_0000,
            forall|k: int| 0 <= k < out.len() ==> #[trigger] out[k] == glyph_spec(
                lo as int, bmin as int, bmax as int, hi as int, d as int, rows - k),
        decreases y,
    {
        let g = glyph_at(lo, bmin, bmax, hi, d, y);
        out.push(g);
        y = y - 1;
    }
    out
}

/// The character drawn for a glyph, single-column mode.
pub open spec fn glyph_symbol_spec(g: Glyph) -> char {
    match g {
        Glyph::Void => ' ',
        Glyph::Wick => '│',
        Glyph::Body => '┃',
        Glyph::HalfBodyTop => '╹',
        Glyph::HalfBodyBottom => '╻',
        Glyph::HalfWickTop => '╵',
        Glyph::HalfWickBottom => '╷',
        Glyph::BodyBottomWickTop => '╽',
        Glyph::BodyTopWickBottom => '╿',
        Glyph::LeftEighthWick => '▏',
        Glyph::RightEighthWick => '▕',
        Glyph::LeftHalfBody => '▌',
        Glyph::RightHalfBody => '▐',
    }
}

/// Whether a glyph takes the wick color rather than the body color; the
/// eighth-block markers are wick-colored like the thin bar they replace.
pub open spec fn glyph_wick_spec(g: Glyph) -> bool {
    g is Wick || g is HalfWickTop || g is HalfWickBottom
        || g is LeftEighthWick || g is RightEighthWick
}

/// The character drawn for a glyph, single-column mode.
pub fn glyph_symbol(g: Glyph) -> (r: char)
    ensures
        r == glyph_symbol_spec(g),
{
    match g {
        Glyph::Void => ' ',
        Glyph::Wick => '│',
        Glyph::Body => '┃',
        Glyph::HalfBodyTop => '╹',
        Glyph::HalfBodyBottom => '╻',
        Glyph::HalfWickTop => '╵',
        Glyph::HalfWickBottom => '╷',
        Glyph::BodyBottomWickTop => '╽',
        Glyph::BodyTopWickBottom => '╿',
        Glyph::LeftEighthWick => '▏',
        Glyph::RightEighthWick => '▕',
        Glyph::LeftHalfBody => '▌',
        Glyph::RightHalfBody => '▐',
    }
}

/// Executable wick-color test; exactly `glyph_wick_spec`.
pub fn glyph_is_wick(g: Glyph) -> (r: bool)
    ensures
        r == glyph_wick_spec(g),
{
    match g {
        Glyph::Wick | Glyph::HalfWickTop | Glyph::HalfWickBottom
        | Glyph::LeftEighthWick | Glyph::RightEighthWick => true,
        _ => false,
    }
}

} // verus!
