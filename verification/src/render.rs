//! The per-render pipeline: guards, global range and gutter sizing, window
//! selection, state publication, visible price range, y-axis labels, x-axis
//! ruler, fit-mode layout and per-candle glyph compositing — all on plain
//! values. The host surface is modeled as a fresh grid of cells prefilled
//! with a caller-chosen filler; a thin adapter can blit it into any buffer.
use vstd::prelude::*;
use crate::candle::{Candle, merge, squash, spec_merge};
use crate::chart::{CandleStickChart, CandleStickChartState, ChartFitMode, Color, Window};
use crate::format::{format_price, price_chars, lemma_price_chars_len};
use crate::glyph::{render_candle_column, glyph_symbol, glyph_is_wick};
use crate::layout::stretch_layout;
use crate::time_label::{long_label_text, short_label_text};
use crate::y_axis::y_tick_value;

verus! {

/// One character position: a symbol and a foreground color.
#[derive(Clone, Copy, PartialEq, Eq, Structural, Debug)]
pub struct Cell {
    pub symbol: char,
    pub fg: Color,
}

/// A cell with the reset foreground color.
pub open spec fn spec_reset_cell(sym: char) -> Cell {
    Cell { symbol: sym, fg: Color::Reset }
}

/// `n` copies of one cell.
pub open spec fn spec_fill_cells(fill: Cell, n: int) -> Seq<Cell> {
    Seq::new(n as nat, |i: int| fill)
}

/// `n` blank reset cells.
pub open spec fn spec_spaces(n: int) -> Seq<Cell> {
    Seq::new(n as nat, |i: int| spec_reset_cell(' '))
}

/// The first `n` characters of a label as reset cells.
pub open spec fn spec_label_cells(label: Seq<char>, n: int) -> Seq<Cell> {
    Seq::new(n as nat, |i: int| spec_reset_cell(label[i]))
}

/// A tick row's gutter: the label right-aligned in `wlab` columns (overlong
/// labels truncated), a space, the tick mark, a space.
pub open spec fn spec_tick_gutter(label: Seq<char>, wlab: int) -> Seq<Cell> {
    let labn = if label.len() > wlab { wlab } else { label.len() as int };
    spec_spaces(wlab - labn) + spec_label_cells(label, labn)
        + seq![spec_reset_cell(' '), spec_reset_cell('├'), spec_reset_cell(' ')]
}

/// A non-tick row's gutter: spaces, the axis line, a space.
pub open spec fn spec_plain_gutter(wlab: int) -> Seq<Cell> {
    spec_spaces(wlab + 1) + seq![spec_reset_cell('│'), spec_reset_cell(' ')]
}

/// The ruler over the chart area: dashes, with a tick at the live edge for
/// charts at least six columns wide.
pub open spec fn spec_ruler(w: int) -> Seq<Cell> {
    Seq::new(w as nat, |c: int| spec_reset_cell(if c + 1 == w && w >= 6 { '┴' } else { '─' }))
}

/// Whether a timestamp (shifted by the display offset) falls in the years
/// the time labels cover, 1970 through 9999.
pub open spec fn spec_label_in_range(ts: int, off: int) -> bool {
    0 <= ts + off * 1000 < 253_402_300_800_000
}

/// The x-axis label row: the tick timestamp formatted long or short as the
/// width allows, right-aligned under the tick, with a `*` marker when live;
/// blank when no label fits or the timestamp is out of label range.
pub open spec fn spec_time_label_cells(w: int, ts: int, off: int, live: bool) -> Seq<Cell> {
    let marker = spec_reset_cell(if live { '*' } else { ' ' });
    if w >= 17 && spec_label_in_range(ts, off) {
        spec_spaces(w - 17) + seq![marker]
            + spec_label_cells(crate::time_label::long_label(crate::time_label::civil_of(ts, off)), 16)
    } else if w >= 6 && spec_label_in_range(ts, off) {
        spec_spaces(w - 6) + seq![marker]
            + spec_label_cells(crate::time_label::short_label(crate::time_label::civil_of(ts, off)), 5)
    } else {
        spec_spaces(w)
    }
}

/// The cell contents of a vector of columns.
pub open spec fn spec_deep(cols: Seq<Vec<Cell>>) -> Seq<Seq<Cell>> {
    cols.map_values(|v: Vec<Cell>| v@)
}

/// Whether a candle is well formed and fits the visible price range, so it
/// can be drawn.
pub open spec fn spec_candle_visible(c: Candle, y_min: int, y_max: int) -> bool {
    y_min <= c.low && c.low <= c.open && c.open <= c.high
        && c.low <= c.close && c.close <= c.high && c.high <= y_max
}

/// One candle's column of cells, top row first: the glyph of each cell per
/// `glyph_spec` on the candle's boundaries mapped to axis units, wick glyphs
/// in the wick color and all others in the body color, both picked by the
/// candle's classification.
pub open spec fn spec_candle_column(chart: CandleStickChart, c: Candle, y_min: int, y_max: int, rows: int) -> Seq<Cell> {
    Seq::new(rows as nat, |k: int| {
        let bmin = if c.open <= c.close { c.open as int } else { c.close as int };
        let bmax = if c.open <= c.close { c.close as int } else { c.open as int };
        let g = crate::glyph::glyph_spec(
            (c.low - y_min) * rows,
            (bmin - y_min) * rows,
            (bmax - y_min) * rows,
            (c.high - y_min) * rows,
            y_max - y_min,
            rows - k,
        );
        let bullish = c.open <= c.close;
        let body = if bullish { chart.bullish_color } else { chart.bearish_color };
        let wick = if bullish { chart.bullish_wick_color } else { chart.bearish_wick_color };
        Cell {
            symbol: crate::glyph::glyph_symbol_spec(g),
            fg: if crate::glyph::glyph_wick_spec(g) { wick } else { body },
        }
    })
}

/// One draw step: writes the candle's column at `col` when the slot exists
/// and the candle fits the visible range, else leaves the columns unchanged.
pub open spec fn spec_draw(
    chart: CandleStickChart,
    cols: Seq<Seq<Cell>>,
    col: int,
    c: Candle,
    y_min: int,
    y_max: int,
    rows: int,
) -> Seq<Seq<Cell>> {
    if 0 <= col < cols.len() && spec_candle_visible(c, y_min, y_max) {
        cols.update(col, spec_candle_column(chart, c, y_min, y_max, rows))
    } else {
        cols
    }
}

/// One column of a stretched candle spanning `width` columns: as
/// `spec_candle_column`, with the leftmost/rightmost column's full wick and
/// body cells replaced by the eighth-block markers and half-block edges.
pub open spec fn spec_candle_column_stretched(
    chart: CandleStickChart, c: Candle, y_min: int, y_max: int, rows: int, sub: int, width: int,
) -> Seq<Cell> {
    Seq::new(rows as nat, |k: int| {
        let bmin = if c.open <= c.close { c.open as int } else { c.close as int };
        let bmax = if c.open <= c.close { c.close as int } else { c.open as int };
        let g = crate::glyph::stretched_glyph_spec(
            (c.low - y_min) * rows,
            (bmin - y_min) * rows,
            (bmax - y_min) * rows,
            (c.high - y_min) * rows,
            y_max - y_min,
            rows - k,
            sub,
            width,
        );
        let bullish = c.open <= c.close;
        let body = if bullish { chart.bullish_color } else { chart.bearish_color };
        let wick = if bullish { chart.bullish_wick_color } else { chart.bearish_wick_color };
        Cell {
            symbol: crate::glyph::glyph_symbol_spec(g),
            fg: if crate::glyph::glyph_wick_spec(g) { wick } else { body },
        }
    })
}

/// One stretched draw step: writes column `sub` of the candle's `width`-wide
/// rendering at grid column `col` when the slot exists and the candle fits.
pub open spec fn spec_draw_stretched(
    chart: CandleStickChart, cols: Seq<Seq<Cell>>, col: int, c: Candle,
    y_min: int, y_max: int, rows: int, sub: int, width: int,
) -> Seq<Seq<Cell>> {
    if 0 <= col < cols.len() && spec_candle_visible(c, y_min, y_max) {
        cols.update(col, spec_candle_column_stretched(chart, c, y_min, y_max, rows, sub, width))
    } else {
        cols
    }
}

/// The all-filler chart area: `w` columns of `h` filler cells.
pub open spec fn spec_base_columns(fill: Cell, w: int, h: int) -> Seq<Seq<Cell>> {
    Seq::new(w as nat, |i: int| spec_fill_cells(fill, h))
}

/// Fixed-mode columns: each real candle in the window, at one interval per
/// column from the window start; slots with no candle keep the filler.
pub open spec fn spec_fixed_columns(
    chart: CandleStickChart, s: Seq<Candle>, wstart: int, wend: int, step: int,
    ymin: int, ymax: int, rows: int, base: Seq<Seq<Cell>>,
) -> Seq<Seq<Cell>>
    decreases s.len(),
{
    if s.len() == 0 {
        base
    } else {
        let prev = spec_fixed_columns(chart, s.drop_last(), wstart, wend, step, ymin, ymax, rows, base);
        let c = s.last();
        if wstart <= c.timestamp && c.timestamp <= wend && (c.timestamp - wstart) % step == 0 {
            spec_draw(chart, prev, (c.timestamp - wstart) / step, c, ymin, ymax, rows)
        } else {
            prev
        }
    }
}

/// The real candles whose timestamps fall inside the window, in order.
pub open spec fn spec_window_candles(s: Seq<Candle>, lo: int, hi: int) -> Seq<Candle>
    decreases s.len(),
{
    if s.len() == 0 {
        Seq::empty()
    } else {
        let prev = spec_window_candles(s.drop_last(), lo, hi);
        if lo <= s.last().timestamp && s.last().timestamp <= hi { prev.push(s.last()) } else { prev }
    }
}

/// The squash-merged series: consecutive groups of `g`, each merged.
pub open spec fn spec_squashed(s: Seq<Candle>, g: int) -> Seq<Candle> {
    Seq::new(((s.len() + g - 1) / g) as nat, |i: int| spec_merge(s.subrange(
        i * g,
        if (i + 1) * g <= s.len() { (i + 1) * g } else { s.len() as int },
    )))
}

/// Squash-mode columns: merged candle `i` occupies column `i`.
pub open spec fn spec_indexed_columns(
    chart: CandleStickChart, s: Seq<Candle>, ymin: int, ymax: int, rows: int, base: Seq<Seq<Cell>>,
) -> Seq<Seq<Cell>>
    decreases s.len(),
{
    if s.len() == 0 {
        base
    } else {
        spec_draw(
            chart,
            spec_indexed_columns(chart, s.drop_last(), ymin, ymax, rows, base),
            s.len() - 1, s.last(), ymin, ymax, rows,
        )
    }
}

/// Draws one candle over `n` of its `bw` consecutive columns starting at `x`.
pub open spec fn spec_span(
    chart: CandleStickChart, cols: Seq<Seq<Cell>>, c: Candle, x: int, n: int, bw: int,
    ymin: int, ymax: int, rows: int,
) -> Seq<Seq<Cell>>
    decreases n,
{
    if n <= 0 {
        cols
    } else {
        spec_draw_stretched(chart, spec_span(chart, cols, c, x, n - 1, bw, ymin, ymax, rows),
            x + n - 1, c, ymin, ymax, rows, n - 1, bw)
    }
}

/// Stretch-mode columns: candle `i` starts at column
/// `i * bw + marked_count(gaps, i)` and spans `bw` columns; marked gaps leave
/// one filler column between neighbours.
pub open spec fn spec_stretch_columns(
    chart: CandleStickChart, s: Seq<Candle>, gaps: Seq<bool>, bw: int,
    ymin: int, ymax: int, rows: int, base: Seq<Seq<Cell>>,
) -> Seq<Seq<Cell>>
    decreases s.len(),
{
    if s.len() == 0 {
        base
    } else {
        let i = s.len() - 1;
        spec_span(
            chart,
            spec_stretch_columns(chart, s.drop_last(), gaps, bw, ymin, ymax, rows, base),
            s.last(), i * bw + crate::layout::marked_count(gaps, i), bw, bw, ymin, ymax, rows,
        )
    }
}

/// The chart-area columns for one render, by fit mode.
pub open spec fn spec_columns(
    chart: CandleStickChart, wstart: int, wend: int, step: int,
    ymin: int, ymax: int, rows: int, w: int, fill: Cell,
) -> Seq<Seq<Cell>> {
    let base = spec_base_columns(fill, w, rows);
    match chart.fit_mode {
        ChartFitMode::Fixed => spec_fixed_columns(chart, chart.candles@, wstart, wend, step, ymin, ymax, rows, base),
        ChartFitMode::Fit => {
            let vis = spec_window_candles(chart.candles@, wstart, wend);
            if vis.len() > w {
                spec_indexed_columns(chart, spec_squashed(vis, (vis.len() + w - 1) / w), ymin, ymax, rows, base)
            } else if vis.len() > 0 {
                let bw = w / vis.len() as int;
                let extra = w - bw * vis.len();
                spec_stretch_columns(chart, vis, crate::render::spec_gaps(vis.len() as int, extra), bw, ymin, ymax, rows, base)
            } else {
                base
            }
        }
    }
}

/// The stretch-mode gap markings.
pub open spec fn spec_gaps(count: int, extra: int) -> Seq<bool> {
    Seq::new((count - 1) as nat, |j: int| crate::layout::gap_marked(count, extra, j))
}

/// The gutter columns needed to label any value in `[min, max]`: the widest
/// label (at least ten columns), plus the tick border.
pub open spec fn spec_estimated_width(min: int, max: int, precision: nat) -> int {
    let l1 = price_chars(min, precision).len() as int;
    let l2 = price_chars(max, precision).len() as int;
    let w = if l1 >= l2 { l1 } else { l2 };
    (if w >= 10 { w } else { 10 }) + 3
}

/// The y-axis gutter width a chart reserves, sized from the global range so
/// that it cannot change mid-render; zero when the axis is hidden.
pub open spec fn spec_gutter_width(chart: CandleStickChart) -> int {
    if !chart.show_y_axis {
        0
    } else {
        spec_estimated_width(
            spec_merge(chart.candles@).low as int,
            spec_merge(chart.candles@).high as int,
            chart.numeric.precision as nat,
        )
    }
}

/// The maximum label width needed to display any value in `[min, max]` at
/// the given precision, plus the tick border: the columns to reserve for the
/// y-axis gutter before layout.
pub fn estimated_width(numeric: crate::chart::Numeric, min: i64, max: i64) -> (r: u16)
    requires
        numeric.precision <= 9,
        -0x1000_0000_0000 <= min <= 0x1000_0000_0000,
        -0x1000_0000_0000 <= max <= 0x1000_0000_0000,
    ensures
        r == spec_estimated_width(min as int, max as int, numeric.precision as nat),
        13 <= r <= 28,
{
    proof {
        lemma_price_chars_len(min as int, numeric.precision as nat);
        lemma_price_chars_len(max as int, numeric.precision as nat);
    }
    let l1 = format_price(min, numeric.precision);
    let l2 = format_price(max, numeric.precision);
    let mut w: usize = l1.len();
    if l2.len() > w {
        w = l2.len();
    }
    if w < 10 {
        w = 10;
    }
    (w + 3) as u16
}

/// The rows the x axis reserves at the bottom, when shown.
pub open spec fn spec_x_axis_height(chart: CandleStickChart) -> int {
    if chart.show_x_axis { 3 } else { 0 }
}

/// The window end the render anchors at: the pinned cursor, else the last
/// real candle.
pub open spec fn spec_window_end(chart: CandleStickChart, cursor: Option<i64>) -> int {
    match cursor {
        Some(c) => c as int,
        None => chart.candles@[chart.candles@.len() - 1].timestamp as int,
    }
}

/// The visible price range folded over the series: the extremes of the real
/// candles inside the window, first-seen initialised; the flag says whether
/// any was seen.
pub open spec fn spec_visible_range(s: Seq<Candle>, lo: int, hi: int, g_low: int, g_high: int) -> (int, int, bool)
    decreases s.len(),
{
    if s.len() == 0 {
        (g_low, g_high, false)
    } else {
        let prev = spec_visible_range(s.drop_last(), lo, hi, g_low, g_high);
        let c = s.last();
        if lo <= c.timestamp && c.timestamp <= hi {
            if !prev.2 {
                (c.low as int, c.high as int, true)
            } else {
                (
                    if c.low < prev.0 { c.low as int } else { prev.0 },
                    if c.high > prev.1 { c.high as int } else { prev.1 },
                    true,
                )
            }
        } else {
            prev
        }
    }
}

/// The y-axis range of one render: the visible extremes, falling back to the
/// global range when only placeholders are in the window, widened by one
/// unit when degenerate.
pub open spec fn spec_y_range(chart: CandleStickChart, wstart: int, wend: int) -> (int, int) {
    let g = spec_merge(chart.candles@);
    let v = spec_visible_range(chart.candles@, wstart, wend, g.low as int, g.high as int);
    let a = if v.2 { v.0 } else { g.low as int };
    let b = if v.2 { v.1 } else { g.high as int };
    if a == b { (a, a + 1) } else { (a, b) }
}

/// One grid row: gutter and chart cells for data rows, the corner and ruler,
/// the time label, and plain filler below.
pub open spec fn spec_grid_row(
    chart: CandleStickChart, cols: Seq<Seq<Cell>>, ymin: int, ymax: int,
    wlab: int, gutter: int, w: int, h: int, width: int, fill: Cell,
    wend: int, live: bool, r: int,
) -> Seq<Cell> {
    if r < h {
        let gut = if chart.show_y_axis {
            if r % 4 == 0 {
                spec_tick_gutter(
                    price_chars(ymax - (ymax - ymin) * r / h, chart.numeric.precision as nat),
                    wlab,
                )
            } else {
                spec_plain_gutter(wlab)
            }
        } else {
            Seq::empty()
        };
        gut + Seq::new(w as nat, |c: int| cols[c][r])
    } else if r == h {
        (if chart.show_y_axis {
            spec_fill_cells(fill, gutter - 2) + seq![spec_reset_cell('└'), spec_reset_cell('─')]
        } else {
            Seq::empty()
        }) + spec_ruler(w)
    } else if r == h + 1 {
        spec_fill_cells(fill, gutter) + spec_time_label_cells(w, wend, chart.display_timezone as int, live)
    } else {
        spec_fill_cells(fill, width)
    }
}

/// The whole rendered grid, cell by cell, as a function of the chart, the
/// viewport, the filler and the cursor. Defined for viewports that pass the
/// size guards.
pub open spec fn spec_grid(chart: CandleStickChart, width: int, height: int, fill: Cell, cursor: Option<i64>) -> Seq<Seq<Cell>> {
    let g = spec_merge(chart.candles@);
    let gutter = spec_gutter_width(chart);
    let wlab = spec_estimated_width(g.low as int, g.high as int, chart.numeric.precision as nat) - 3;
    let w = width - gutter;
    let h = height - spec_x_axis_height(chart);
    let step = chart.interval.spec_millis();
    let wend = spec_window_end(chart, cursor);
    let wstart = wend - step * (w - 1);
    let yr = spec_y_range(chart, wstart, wend);
    let cols = spec_columns(chart, wstart, wend, step, yr.0, yr.1, h, w, fill);
    Seq::new(height as nat, |r: int| spec_grid_row(
        chart, cols, yr.0, yr.1, wlab, gutter, w, h, width, fill, wend, cursor is None, r))
}

/// Rendering is a pure function of the chart, the viewport, the filler and
/// the cursor: any two grids that satisfy `render`'s contract for equal
/// inputs are identical, so re-rendering unchanged inputs is byte-identical.
pub proof fn lemma_render_deterministic(
    chart: CandleStickChart, width: int, height: int, fill: Cell, cursor: Option<i64>,
    a: Seq<Seq<Cell>>, b: Seq<Seq<Cell>>,
)
    requires
        a == spec_grid(chart, width, height, fill, cursor),
        b == spec_grid(chart, width, height, fill, cursor),
    ensures
        a == b,
{
}

impl CandleStickChart {
    /// Renders the chart into a fresh `height x width` grid prefilled with
    /// `fill`, updating the caller-owned state. Returns `None` — and leaves
    /// the state untouched — exactly when there is nothing to draw: no
    /// candles, or a viewport not strictly wider than the reserved gutter or
    /// not strictly taller than the x-axis rows. The grid is `spec_grid` of
    /// the inputs, cell for cell. The x axis carries one tick, at the live
    /// edge, with its time label; the label row is blank for window ends
    /// outside the years 1970 through 9999 (the labeller's range) and for
    /// chart areas narrower than the shortest label.
    #[verifier::loop_isolation(false)]
    #[verifier::rlimit(100)]
    pub fn render(&self, width: u16, height: u16, fill: Cell, state: &mut CandleStickChartState)
        -> (r: Option<Vec<Vec<Cell>>>)
        requires
            self.candles@.len() <= 0x1000_0000,
            forall|i: int| 0 <= i < self.candles@.len() ==> (#[trigger] self.candles@[i]).wf(),
            forall|i: int| 0 <= i < self.candles@.len() ==>
                -0x8_0000_0000 <= (#[trigger] self.candles@[i]).low
                && self.candles@[i].high <= 0x8_0000_0000,
            forall|i: int, j: int| 0 <= i <= j < self.candles@.len() ==>
                (#[trigger] self.candles@[i]).timestamp <= (#[trigger] self.candles@[j]).timestamp,
            forall|i: int| 0 <= i < self.candles@.len() ==>
                -0x2000_0000_0000_0000 <= (#[trigger] self.candles@[i]).timestamp <= 0x2000_0000_0000_0000,
            old(state).cursor_timestamp matches Some(c) ==> -0x2000_0000_0000_0000 <= c <= 0x2000_0000_0000_0000,
            self.numeric.precision <= 9,
        ensures
            r is None <==> (self.candles@.len() == 0
                || width <= spec_gutter_width(*self)
                || height <= spec_x_axis_height(*self)),
            r is None ==> *final(state) == *old(state),
            r matches Some(g) ==> {
                &&& g@.len() == height
                &&& forall|k: int| 0 <= k < g@.len() ==> (#[trigger] g@[k])@.len() == width
                &&& spec_deep(g@) == spec_grid(*self, width as int, height as int, fill,
                    old(state).cursor_timestamp)
            },
            final(state).cursor_timestamp == old(state).cursor_timestamp,
            r is Some ==> (final(state).info matches Some(info) && {
                let cols = width - spec_gutter_width(*self);
                let step = self.interval.spec_millis();
                let wend = spec_window_end(*self, old(state).cursor_timestamp);
                &&& info.earliest_timestamp == self.candles@[0].timestamp
                &&& info.latest_timestamp == self.candles@[self.candles@.len() - 1].timestamp + step * (cols - 1)
                &&& info.interval == self.interval
                &&& info.last_real_timestamp == self.candles@[self.candles@.len() - 1].timestamp
                &&& info.scrolled_past_start == (wend - step * (cols - 1) + step <= self.candles@[0].timestamp)
            }),
    {
        if self.candles.len() == 0 {
            return None;
        }
        let global = merge(&self.candles);
        proof {
            crate::candle::lemma_merge_bounds(self.candles@);
        }
        let precision = self.numeric.precision;

        // gutter sizing from the global range: it must not change mid-render
        let full_gutter: u16 = estimated_width(self.numeric, global.low, global.high);
        let wlab: usize = full_gutter as usize - 3;
        let gutter: u16 = if self.show_y_axis { full_gutter } else { 0 };
        let x_height: u16 = if self.show_x_axis { 3 } else { 0 };
        if width <= gutter || height <= x_height {
            return None;
        }
        let chart_w: u16 = width - gutter;
        let chart_h: u16 = height - x_height;

        // window selection and state publication
        let step: i64 = self.interval.millis();
        let first_real: i64 = self.candles[0].timestamp;
        let last_real: i64 = self.candles[self.candles.len() - 1].timestamp;
        let window: Window = crate::chart::compute_window(last_real, step, chart_w, state.cursor_timestamp);
        proof {
            assert(0 <= step * (chart_w - 1) <= 0x6000_0000 * 0xFFFF) by (nonlinear_arith)
                requires 0 < step <= 0x6000_0000, 0 <= chart_w - 1 < 0x1_0000,
            ;
        }
        let info = crate::chart::publish_info(first_real, last_real, self.interval, chart_w, window);
        state.info = Some(info);

        // visible price range over real candles inside the window
        let mut y_min: i64 = global.low;
        let mut y_max: i64 = global.high;
        let mut seen: bool = false;
        let mut i: usize = 0;
        while i < self.candles.len()
            invariant
                i <= self.candles@.len(),
                (y_min as int, y_max as int, seen) == spec_visible_range(
                    self.candles@.take(i as int), window.start as int, window.end as int,
                    global.low as int, global.high as int),
                forall|k: int| 0 <= k < self.candles@.len() ==> (#[trigger] self.candles@[k]).wf(),
                forall|k: int| 0 <= k < self.candles@.len() ==>
                    -0x8_0000_0000 <= (#[trigger] self.candles@[k]).low
                    && self.candles@[k].high <= 0x8_0000_0000,
                -0x8_0000_0000 <= y_min <= 0x8_0000_0000,
                -0x8_0000_0000 <= y_max <= 0x8_0000_0000,
                seen ==> forall|k: int| 0 <= k < i
                    && window.start <= (#[trigger] self.candles@[k]).timestamp
                    && self.candles@[k].timestamp <= window.end
                    ==> y_min <= self.candles@[k].low && self.candles@[k].high <= y_max,
                !seen ==> forall|k: int| 0 <= k < i ==>
                    !(window.start <= (#[trigger] self.candles@[k]).timestamp
                        && self.candles@[k].timestamp <= window.end),
                seen ==> y_min <= y_max,
            decreases self.candles.len() - i,
        {
            let c = self.candles[i];
            if c.timestamp >= window.start && c.timestamp <= window.end {
                if !seen {
                    y_min = c.low;
                    y_max = c.high;
                    seen = true;
                } else {
                    if c.low < y_min { y_min = c.low; }
                    if c.high > y_max { y_max = c.high; }
                }
            }
            proof {
                assert(self.candles@.take(i + 1).drop_last() =~= self.candles@.take(i as int));
                assert(self.candles@.take(i + 1).last() == self.candles@[i as int]);
            }
            i = i + 1;
        }
        proof {
            assert(self.candles@.take(self.candles@.len() as int) =~= self.candles@);
        }
        if !seen {
            y_min = global.low;
            y_max = global.high;
        }
        if y_min == y_max {
            // degenerate range: a single-line axis, one unit tall
            y_max = y_min + 1;
        }
        proof {
            assert(-0x8_0000_0001 <= y_min && y_min < y_max && y_max <= 0x8_0000_0001
                && y_max - y_min <= 0x10_0000_0000);
            assert((y_min as int, y_max as int)
                == spec_y_range(*self, window.start as int, window.end as int));
        }

        let cols = self.compute_columns(window, step, y_min, y_max, chart_h, chart_w, fill);

        // assemble the grid row by row
        let live: bool = match state.cursor_timestamp {
            None => true,
            Some(_) => false,
        };
        let mut grid: Vec<Vec<Cell>> = Vec::new();
        let mut r: usize = 0;
        while r < height as usize
            invariant
                r <= height as usize,
                grid@.len() == r,
                forall|k: int| 0 <= k < grid@.len() ==> (#[trigger] grid@[k])@.len() == width,
                forall|k: int| 0 <= k < grid@.len() ==> (#[trigger] grid@[k])@ == spec_grid_row(
                    *self, spec_deep(cols@), y_min as int, y_max as int, wlab as int, gutter as int,
                    chart_w as int, chart_h as int, width as int, fill, window.end as int, live, k),
                cols@.len() == chart_w,
                forall|m: int| 0 <= m < cols@.len() ==> (#[trigger] cols@[m])@.len() == chart_h,
                chart_h == height - x_height,
                chart_w == width - gutter,
                self.show_y_axis ==> gutter == wlab + 3,
                !self.show_y_axis ==> gutter == 0,
                10 <= wlab <= 25,
                -0x8_0000_0000 <= y_min < y_max <= 0x8_0000_0000 + 1,
                1 <= chart_h,
                precision <= 9,
            decreases height as usize - r,
        {
            let mut row: Vec<Cell> = Vec::new();
            if r < chart_h as usize {
                if self.show_y_axis {
                    if r % 4 == 0 {
                        let v = y_tick_value(y_min, y_max, chart_h, r as u16);
                        let label = format_price(v, precision);
                        push_tick_gutter(&mut row, &label, wlab);
                    } else {
                        push_plain_gutter(&mut row, wlab);
                    }
                }
                let mut chart_cells = chart_row_cells(&cols, r);
                row.append(&mut chart_cells);
            } else if r == chart_h as usize {
                // ruler row: the axis corner, then ticks over the chart area
                if self.show_y_axis {
                    let mut corner = fill_cells(fill, gutter as usize - 2);
                    row.append(&mut corner);
                    row.push(Cell { symbol: '└', fg: Color::Reset });
                    row.push(Cell { symbol: '─', fg: Color::Reset });
                }
                let mut ruler = ruler_cells(chart_w as usize);
                row.append(&mut ruler);
            } else if r == chart_h as usize + 1 {
                // label row: the live-edge time label, right-aligned at the tick
                let mut pre = fill_cells(fill, gutter as usize);
                row.append(&mut pre);
                let mut lab = time_label_row(chart_w as usize, window.end, self.display_timezone, live);
                row.append(&mut lab);
            } else {
                let mut all = fill_cells(fill, width as usize);
                row.append(&mut all);
            }
            proof {
                assert(row@ =~= spec_grid_row(
                    *self, spec_deep(cols@), y_min as int, y_max as int, wlab as int, gutter as int,
                    chart_w as int, chart_h as int, width as int, fill, window.end as int, live, r as int));
            }
            grid.push(row);
            r = r + 1;
        }
        proof {
            assert(spec_deep(grid@) =~~= spec_grid(*self, width as int, height as int, fill,
                old(state).cursor_timestamp));
        }
        Some(grid)
    }


    /// The chart-area columns: the filler everywhere, overwritten per candle
    /// by the fit mode's layout; exactly `spec_columns`.
    #[verifier::loop_isolation(false)]
    #[verifier::rlimit(100)]
    fn compute_columns(&self, window: Window, step: i64, y_min: i64, y_max: i64, chart_h: u16, chart_w: u16, fill: Cell)
        -> (cols: Vec<Vec<Cell>>)
        requires
            self.candles@.len() <= 0x1000_0000,
            forall|i: int| 0 <= i < self.candles@.len() ==>
                -0x2000_0000_0000_0000 <= (#[trigger] self.candles@[i]).timestamp <= 0x2000_0000_0000_0000,
            1 <= chart_w,
            1 <= chart_h,
            -0x8_0000_0001 <= y_min < y_max <= 0x8_0000_0001,
            y_max - y_min <= 0x10_0000_0000,
            0 < step <= 0x6000_0000,
            -0x4000_0000_0000_0000 <= window.start <= 0x4000_0000_0000_0000,
        ensures
            cols@.len() == chart_w,
            forall|m: int| 0 <= m < cols@.len() ==> (#[trigger] cols@[m])@.len() == chart_h,
            spec_deep(cols@) == spec_columns(*self, window.start as int, window.end as int, step as int,
                y_min as int, y_max as int, chart_h as int, chart_w as int, fill),
    {
        // per-column glyph columns for the chart area
        let mut cols: Vec<Vec<Cell>> = Vec::new();
        let mut ci: usize = 0;
        while ci < chart_w as usize
            invariant
                ci <= chart_w as usize,
                cols@.len() == ci,
                forall|k: int| 0 <= k < cols@.len() ==> (#[trigger] cols@[k])@.len() == chart_h,
                forall|k: int| 0 <= k < cols@.len() ==> (#[trigger] cols@[k])@ == spec_fill_cells(fill, chart_h as int),
            decreases chart_w as usize - ci,
        {
            cols.push(fill_cells(fill, chart_h as usize));
            ci = ci + 1;
        }
        let ghost base0 = spec_base_columns(fill, chart_w as int, chart_h as int);
        proof {
            assert(spec_deep(cols@) =~~= base0);
        }

        match self.fit_mode {
            ChartFitMode::Fixed => {
                let mut k: usize = 0;
                while k < self.candles.len()
                    invariant
                        k <= self.candles@.len(),
                        cols@.len() == chart_w,
                        forall|m: int| 0 <= m < cols@.len() ==> (#[trigger] cols@[m])@.len() == chart_h,
                        spec_deep(cols@) == spec_fixed_columns(*self, self.candles@.take(k as int),
                            window.start as int, window.end as int, step as int,
                            y_min as int, y_max as int, chart_h as int, base0),
                    decreases self.candles.len() - k,
                {
                    let c = self.candles[k];
                    if c.timestamp >= window.start && c.timestamp <= window.end {
                        let off: i64 = c.timestamp - window.start;
                        if off % step == 0 {
                            let col_i: i64 = off / step;
                            if 0 <= col_i && col_i < chart_w as i64 {
                                self.draw_candle(&mut cols, col_i as usize, &c, y_min, y_max, chart_h);
                            }
                        }
                    }
                    proof {
                        assert(self.candles@.take(k + 1).drop_last() =~= self.candles@.take(k as int));
                        assert(self.candles@.take(k + 1).last() == self.candles@[k as int]);
                    }
                    k = k + 1;
                }
                proof {
                    assert(self.candles@.take(self.candles@.len() as int) =~= self.candles@);
                    assert(self.fit_mode is Fixed);
                    assert(base0 == spec_base_columns(fill, chart_w as int, chart_h as int));
                    assert(spec_deep(cols@) == spec_fixed_columns(*self, self.candles@,
                        window.start as int, window.end as int, step as int,
                        y_min as int, y_max as int, chart_h as int, base0));
                    assert(spec_deep(cols@) == spec_columns(*self, window.start as int, window.end as int, step as int,
                        y_min as int, y_max as int, chart_h as int, chart_w as int, fill));
                }
            }
            ChartFitMode::Fit => {
                let mut visible: Vec<Candle> = Vec::new();
                let mut k: usize = 0;
                while k < self.candles.len()
                    invariant
                        visible@.len() <= k,
                        k <= self.candles@.len(),
                        visible@ == spec_window_candles(self.candles@.take(k as int),
                            window.start as int, window.end as int),
                    decreases self.candles.len() - k,
                {
                    let c = self.candles[k];
                    if c.timestamp >= window.start && c.timestamp <= window.end {
                        visible.push(c);
                    }
                    proof {
                        assert(self.candles@.take(k + 1).drop_last() =~= self.candles@.take(k as int));
                        assert(self.candles@.take(k + 1).last() == self.candles@[k as int]);
                    }
                    k = k + 1;
                }
                proof {
                    assert(self.candles@.take(self.candles@.len() as int) =~= self.candles@);
                }
                if visible.len() > chart_w as usize {
                    // squash: merge consecutive groups, one column each
                    let group = (visible.len() + chart_w as usize - 1) / chart_w as usize;
                    proof {
                        assert(group >= 1) by (nonlinear_arith)
                            requires
                                group == (visible@.len() + chart_w - 1) as int / chart_w as int,
                                visible@.len() > chart_w >= 1,
                        ;
                    }
                    let merged = squash(&visible, group);
                    proof {
                        assert(merged@ =~= spec_squashed(visible@, group as int));
                    }
                    let mut m: usize = 0;
                    while m < merged.len()
                        invariant
                            cols@.len() == chart_w,
                            forall|q: int| 0 <= q < cols@.len() ==> (#[trigger] cols@[q])@.len() == chart_h,
                            m <= merged@.len(),
                            spec_deep(cols@) == spec_indexed_columns(*self, merged@.take(m as int),
                                y_min as int, y_max as int, chart_h as int, base0),
                        decreases merged.len() - m,
                    {
                        if m < chart_w as usize {
                            let c = merged[m];
                            self.draw_candle(&mut cols, m, &c, y_min, y_max, chart_h);
                        }
                        proof {
                            assert(merged@.take(m + 1).drop_last() =~= merged@.take(m as int));
                            assert(merged@.take(m + 1).last() == merged@[m as int]);
                        }
                        m = m + 1;
                    }
                    proof {
                        assert(merged@.take(merged@.len() as int) =~= merged@);
                        assert(spec_deep(cols@) == spec_columns(*self, window.start as int, window.end as int, step as int,
                        y_min as int, y_max as int, chart_h as int, chart_w as int, fill));
                    }
                } else if visible.len() > 0 {
                    // stretch: wider candles with evenly spread gap columns
                    let (base_w, gaps) = stretch_layout(visible.len(), chart_w as usize);
                    proof {
                        assert(1 <= chart_w as int / visible@.len() as int <= chart_w as int) by (nonlinear_arith)
                            requires 0 < visible@.len() <= chart_w as int,
                        ;
                        assert(gaps@ =~= spec_gaps(visible@.len() as int,
                            chart_w - (chart_w as int / visible@.len() as int) * visible@.len()));
                    }
                    let mut m: usize = 0;
                    let mut x: usize = 0;
                    while m < visible.len()
                        invariant
                            cols@.len() == chart_w,
                            forall|q: int| 0 <= q < cols@.len() ==> (#[trigger] cols@[q])@.len() == chart_h,
                            m <= visible@.len(),
                            x == m * base_w + crate::layout::marked_count(gaps@,
                                if m <= gaps@.len() { m as int } else { gaps@.len() as int }),
                            spec_deep(cols@) == spec_stretch_columns(*self, visible@.take(m as int),
                                gaps@, base_w as int, y_min as int, y_max as int, chart_h as int, base0),
                        decreases visible.len() - m,
                    {
                        proof {
                            let mi = if m <= gaps@.len() { m as int } else { gaps@.len() as int };
                            crate::layout::lemma_marked_le(gaps@, mi);
                            crate::layout::lemma_marked_le(gaps@, gaps@.len() as int);
                            assert(m * base_w <= visible@.len() * base_w) by (nonlinear_arith)
                                requires m <= visible@.len(), base_w >= 0,
                            ;
                            assert(base_w * visible@.len() == visible@.len() * base_w) by (nonlinear_arith);
                            assert(visible@.len() * base_w <= chart_w as int);
                            assert(crate::layout::marked_count(gaps@, mi) <= gaps@.len());
                            assert(x <= chart_w + gaps@.len());
                            assert(x <= 0xFFFF + 0xFFFF);
                        }
                        let c = visible[m];
                        let ghost before_span = spec_deep(cols@);
                        let mut dx: usize = 0;
                        while dx < base_w
                            invariant
                                cols@.len() == chart_w,
                                forall|q: int| 0 <= q < cols@.len() ==> (#[trigger] cols@[q])@.len() == chart_h,
                                dx <= base_w,
                                spec_deep(cols@) == spec_span(*self, before_span, c, x as int, dx as int,
                                    base_w as int, y_min as int, y_max as int, chart_h as int),
                            decreases base_w - dx,
                        {
                            if x + dx < chart_w as usize {
                                self.draw_candle_stretched(&mut cols, x + dx, &c, y_min, y_max, chart_h,
                                    dx as u16, base_w as u16);
                            }
                            dx = dx + 1;
                        }
                        proof {
                            assert(visible@.take(m + 1).drop_last() =~= visible@.take(m as int));
                            assert(visible@.take(m + 1).last() == visible@[m as int]);
                        }
                        x = x + base_w;
                        if m < gaps.len() && gaps[m] {
                            x = x + 1;
                        }
                        proof {
                            assert((m + 1) * base_w == m * base_w + base_w) by (nonlinear_arith);
                            if m < gaps@.len() {
                                assert(crate::layout::marked_count(gaps@, m + 1)
                                    == crate::layout::marked_count(gaps@, m as int)
                                        + if gaps@[m as int] { 1int } else { 0int });
                            }
                        }
                        m = m + 1;
                    }
                    proof {
                        assert(visible@.take(visible@.len() as int) =~= visible@);
                        assert(spec_deep(cols@) == spec_columns(*self, window.start as int, window.end as int, step as int,
                        y_min as int, y_max as int, chart_h as int, chart_w as int, fill));
                    }
                } else {
                    proof {
                        assert(spec_deep(cols@) == spec_columns(*self, window.start as int, window.end as int, step as int,
                        y_min as int, y_max as int, chart_h as int, chart_w as int, fill));
                    }
                }
            }
        }
        cols
    }


    /// Draws one candle into column `col`, colored by its classification;
    /// candles outside the visible range are skipped rather than clipped.
    #[verifier::loop_isolation(false)]
    fn draw_candle(&self, cols: &mut Vec<Vec<Cell>>, col: usize, c: &Candle, y_min: i64, y_max: i64, rows: u16)
        requires
            col < old(cols)@.len(),
            forall|m: int| 0 <= m < old(cols)@.len() ==> (#[trigger] old(cols)@[m])@.len() == rows,
            -0x8_0000_0001 <= y_min < y_max <= 0x8_0000_0001,
            y_max - y_min <= 0x10_0000_0000,
            1 <= rows,
        ensures
            final(cols)@.len() == old(cols)@.len(),
            forall|m: int| 0 <= m < final(cols)@.len() ==> (#[trigger] final(cols)@[m])@.len() == rows,
            spec_deep(final(cols)@) == spec_draw(*self, spec_deep(old(cols)@), col as int, *c, y_min as int, y_max as int, rows as int),
    {
        if !(y_min <= c.low && c.low <= c.open && c.open <= c.high
            && c.low <= c.close && c.close <= c.high && c.high <= y_max) {
            proof {
                assert(!spec_candle_visible(*c, y_min as int, y_max as int));
                assert(spec_deep(cols@) =~= spec_draw(*self, spec_deep(cols@), col as int, *c,
                    y_min as int, y_max as int, rows as int));
            }
            return;
        }
        let (body_color, wick_color) = match c.classify() {
            crate::candle::CandleType::Bullish => (self.bullish_color, self.bullish_wick_color),
            crate::candle::CandleType::Bearish => (self.bearish_color, self.bearish_wick_color),
        };
        let glyphs = render_candle_column(c, y_min, y_max, rows);
        let ghost target = spec_candle_column(*self, *c, y_min as int, y_max as int, rows as int);
        let mut column: Vec<Cell> = Vec::new();
        let mut r: usize = 0;
        while r < glyphs.len()
            invariant
                column@.len() == r,
                r <= glyphs.len(),
                glyphs@.len() == rows,
                forall|k: int| 0 <= k < r ==> #[trigger] column@[k] == target[k],
            decreases glyphs.len() - r,
        {
            let g = glyphs[r];
            let fg = if glyph_is_wick(g) { wick_color } else { body_color };
            column.push(Cell { symbol: glyph_symbol(g), fg });
            r = r + 1;
        }
        proof {
            assert(column@ =~= target);
        }
        let ghost before = spec_deep(cols@);
        cols[col] = column;
        proof {
            assert(spec_candle_visible(*c, y_min as int, y_max as int));
            assert(spec_deep(cols@) =~= before.update(col as int, target));
        }
    }

    /// Draws one column of a stretched candle into grid column `col`.
    #[verifier::loop_isolation(false)]
    fn draw_candle_stretched(&self, cols: &mut Vec<Vec<Cell>>, col: usize, c: &Candle,
        y_min: i64, y_max: i64, rows: u16, sub: u16, width: u16)
        requires
            col < old(cols)@.len(),
            forall|m: int| 0 <= m < old(cols)@.len() ==> (#[trigger] old(cols)@[m])@.len() == rows,
            -0x8_0000_0001 <= y_min < y_max <= 0x8_0000_0001,
            y_max - y_min <= 0x10_0000_0000,
            1 <= rows,
        ensures
            final(cols)@.len() == old(cols)@.len(),
            forall|m: int| 0 <= m < final(cols)@.len() ==> (#[trigger] final(cols)@[m])@.len() == rows,
            spec_deep(final(cols)@) == spec_draw_stretched(*self, spec_deep(old(cols)@), col as int, *c,
                y_min as int, y_max as int, rows as int, sub as int, width as int),
    {
        if !(y_min <= c.low && c.low <= c.open && c.open <= c.high
            && c.low <= c.close && c.close <= c.high && c.high <= y_max) {
            proof {
                assert(!spec_candle_visible(*c, y_min as int, y_max as int));
                assert(spec_deep(cols@) =~= spec_draw_stretched(*self, spec_deep(cols@), col as int, *c,
                    y_min as int, y_max as int, rows as int, sub as int, width as int));
            }
            return;
        }
        let (body_color, wick_color) = match c.classify() {
            crate::candle::CandleType::Bullish => (self.bullish_color, self.bullish_wick_color),
            crate::candle::CandleType::Bearish => (self.bearish_color, self.bearish_wick_color),
        };
        let glyphs = render_candle_column(c, y_min, y_max, rows);
        let ghost target = spec_candle_column_stretched(*self, *c, y_min as int, y_max as int,
            rows as int, sub as int, width as int);
        let mut column: Vec<Cell> = Vec::new();
        let mut r: usize = 0;
        while r < glyphs.len()
            invariant
                column@.len() == r,
                r <= glyphs.len(),
                glyphs@.len() == rows,
                forall|k: int| 0 <= k < r ==> #[trigger] column@[k] == target[k],
            decreases glyphs.len() - r,
        {
            let g0 = glyphs[r];
            let g = if width >= 2 && sub == 0 {
                match g0 {
                    crate::glyph::Glyph::Wick => crate::glyph::Glyph::LeftEighthWick,
                    crate::glyph::Glyph::Body => crate::glyph::Glyph::LeftHalfBody,
                    _ => g0,
                }
            } else if width >= 2 && sub == width - 1 {
                match g0 {
                    crate::glyph::Glyph::Wick => crate::glyph::Glyph::RightEighthWick,
                    crate::glyph::Glyph::Body => crate::glyph::Glyph::RightHalfBody,
                    _ => g0,
                }
            } else {
                g0
            };
            let fg = if glyph_is_wick(g) { wick_color } else { body_color };
            column.push(Cell { symbol: glyph_symbol(g), fg });
            r = r + 1;
        }
        proof {
            assert(column@ =~= target);
        }
        let ghost before = spec_deep(cols@);
        cols[col] = column;
        proof {
            assert(spec_candle_visible(*c, y_min as int, y_max as int));
            assert(spec_deep(cols@) =~= before.update(col as int, target));
        }
    }
}

/// Appends a tick row's gutter: the label right-aligned in `wlab` columns
/// (overlong labels truncated), then a space, the tick mark, and a space.
fn push_tick_gutter(row: &mut Vec<Cell>, label: &Vec<char>, wlab: usize)
    requires
        old(row)@.len() == 0,
        wlab <= 0xFF00,
    ensures
        final(row)@.len() == wlab + 3,
        final(row)@ == spec_tick_gutter(label@, wlab as int),
{
    let lab_n: usize = if label.len() > wlab { wlab } else { label.len() };
    let mut pad_cells = fill_cells(Cell { symbol: ' ', fg: Color::Reset }, wlab - lab_n);
    let mut lab_cells = label_cells(&label, lab_n);
    row.append(&mut pad_cells);
    row.append(&mut lab_cells);
    row.push(Cell { symbol: ' ', fg: Color::Reset });
    row.push(Cell { symbol: '├', fg: Color::Reset });
    row.push(Cell { symbol: ' ', fg: Color::Reset });
    proof {
        assert(spec_fill_cells(Cell { symbol: ' ', fg: Color::Reset }, wlab - lab_n)
            =~= spec_spaces(wlab - lab_n as int));
        assert(final(row)@ =~= spec_tick_gutter(label@, wlab as int));
    }
}

/// Appends a non-tick row's gutter: spaces, the axis line, and a space.
fn push_plain_gutter(row: &mut Vec<Cell>, wlab: usize)
    requires
        old(row)@.len() == 0,
        wlab <= 0xFF00,
    ensures
        final(row)@.len() == wlab + 3,
        final(row)@ == spec_plain_gutter(wlab as int),
{
    let mut pad_cells = fill_cells(Cell { symbol: ' ', fg: Color::Reset }, wlab + 1);
    row.append(&mut pad_cells);
    row.push(Cell { symbol: '│', fg: Color::Reset });
    row.push(Cell { symbol: ' ', fg: Color::Reset });
    proof {
        assert(spec_fill_cells(Cell { symbol: ' ', fg: Color::Reset }, wlab + 1 as int)
            =~= spec_spaces(wlab + 1 as int));
        assert(final(row)@ =~= spec_plain_gutter(wlab as int));
    }

}

/// A run of `n` copies of one cell.
fn fill_cells(fill: Cell, n: usize) -> (r: Vec<Cell>)
    ensures
        r@.len() == n,
        r@ == spec_fill_cells(fill, n as int),
{
    let mut v: Vec<Cell> = Vec::new();
    let mut i: usize = 0;
    while i < n
        invariant v@ =~= spec_fill_cells(fill, i as int), i <= n,
        decreases n - i,
    {
        v.push(fill);
        i = i + 1;
        proof {
            assert(v@ =~= spec_fill_cells(fill, i as int));
        }
    }
    v
}

fn char_at(v: &Vec<char>, i: usize) -> (c: char)
    requires i < v@.len(),
    ensures c == v@[i as int],
{
    v[i]
}

/// The first `n` characters of a label as reset-colored cells.
fn label_cells(label: &Vec<char>, n: usize) -> (r: Vec<Cell>)
    requires n <= label@.len(),
    ensures
        r@.len() == n,
        r@ == spec_label_cells(label@, n as int),
    decreases n,
{
    if n == 0 {
        let r: Vec<Cell> = Vec::new();
        proof {
            assert(r@ =~= spec_label_cells(label@, 0));
        }
        r
    } else {
        let mut out = label_cells(label, n - 1);
        let ch: char = char_at(label, n - 1);
        out.push(Cell { symbol: ch, fg: Color::Reset });
        proof {
            assert(out@ =~= spec_label_cells(label@, n as int));
        }
        out
    }
}

/// One row of the chart area: column `c`'s cell at row `r`, left to right.
fn chart_row_cells(cols: &Vec<Vec<Cell>>, r: usize) -> (out: Vec<Cell>)
    requires
        forall|m: int| 0 <= m < cols@.len() ==> r < (#[trigger] cols@[m])@.len(),
    ensures
        out@.len() == cols@.len(),
        out@ == Seq::new(cols@.len(), |c: int| cols@[c]@[r as int]),
{
    let mut v: Vec<Cell> = Vec::new();
    let mut c: usize = 0;
    while c < cols.len()
        invariant
            v@ =~= Seq::new(c as nat, |m: int| cols@[m]@[r as int]),
            c <= cols@.len(),
            forall|m: int| 0 <= m < cols@.len() ==> r < (#[trigger] cols@[m])@.len(),
        decreases cols.len() - c,
    {
        let cell: Cell = cols[c][r];
        v.push(cell);
        c = c + 1;
        proof {
            assert(v@ =~= Seq::new(c as nat, |m: int| cols@[m]@[r as int]));
        }
    }
    proof {
        assert(v@ =~= Seq::new(cols@.len(), |m: int| cols@[m]@[r as int]));
    }
    v
}

/// The x-axis label row over the chart area: the tick timestamp, formatted
/// long (`YYYY/MM/DD hh:mm`) or short (`hh:mm`) as the width allows and
/// right-aligned under the tick, with a leading `*` when the view tracks the
/// live edge; blank when the width cannot hold a label or the timestamp is
/// outside the years 1970..=9999.
fn time_label_row(width: usize, ts: i64, offset_s: i32, live: bool) -> (r: Vec<Cell>)
    ensures
        r@.len() == width,
        r@ == spec_time_label_cells(width as int, ts as int, offset_s as int, live),
{
    let space = Cell { symbol: ' ', fg: Color::Reset };
    let off_ms: i64 = offset_s as i64 * 1000;
    let in_range: bool = ts >= -0x7000_0000_0000 - off_ms
        && ts <= 0x7FFF_0000_0000_0000
        && 0 <= ts + off_ms && ts + off_ms < 253_402_300_800_000;
    let marker = Cell { symbol: if live { '*' } else { ' ' }, fg: Color::Reset };
    proof {
        assert(in_range == spec_label_in_range(ts as int, offset_s as int));
    }
    if width >= 17 && in_range {
        let text = long_label_text(ts, offset_s);
        let mut out = fill_cells(space, width - 17);
        out.push(marker);
        let mut t = label_cells(&text, text.len());
        out.append(&mut t);
        proof {
            assert(out@ =~= spec_time_label_cells(width as int, ts as int, offset_s as int, live));
        }
        out
    } else if width >= 6 && in_range {
        let text = short_label_text(ts, offset_s);
        let mut out = fill_cells(space, width - 6);
        out.push(marker);
        let mut t = label_cells(&text, text.len());
        out.append(&mut t);
        proof {
            assert(out@ =~= spec_time_label_cells(width as int, ts as int, offset_s as int, live));
        }
        out
    } else {
        let out = fill_cells(space, width);
        proof {
            assert(out@ =~= spec_time_label_cells(width as int, ts as int, offset_s as int, live));
        }
        out
    }
}

/// The ruler row over the chart area: ticks over a dashed line; charts at
/// least six columns wide get a tick at the live edge.
fn ruler_cells(w: usize) -> (r: Vec<Cell>)
    ensures
        r@.len() == w,
        r@ == spec_ruler(w as int),
{
    let mut v: Vec<Cell> = Vec::new();
    let mut c: usize = 0;
    while c < w
        invariant
            v@.len() == c,
            c <= w,
            forall|m: int| 0 <= m < c ==> #[trigger] v@[m]
                == spec_reset_cell(if m + 1 == w && w >= 6 { '┴' } else { '─' }),
        decreases w - c,
    {
        let sym = if c + 1 == w && w >= 6 { '┴' } else { '─' };
        v.push(Cell { symbol: sym, fg: Color::Reset });
        c = c + 1;
    }
    proof {
        assert(v@ =~= spec_ruler(w as int));
    }
    v
}

} // verus!
