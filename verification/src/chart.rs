//! Chart configuration (builder style), caller-owned state, and the
//! time-window selection that anchors the view at the live edge or at a
//! pinned cursor.
use vstd::prelude::*;
use crate::candle::Candle;

verus! {

/// A fixed candle duration.
#[derive(Clone, Copy, PartialEq, Eq, Structural, Debug)]
pub enum Interval {
    OneSecond,
    OneMinute,
    FiveMinutes,
    FifteenMinutes,
    ThirtyMinutes,
    OneHour,
    FourHours,
    OneDay,
}

impl Interval {
    /// Duration in milliseconds.
    pub fn millis(&self) -> (r: i64)
        ensures r == self.spec_millis(),
    {
        match self {
            Interval::OneSecond => 1000,
            Interval::OneMinute => 60000,
            Interval::FiveMinutes => 300000,
            Interval::FifteenMinutes => 900000,
            Interval::ThirtyMinutes => 1800000,
            Interval::OneHour => 3600000,
            Interval::FourHours => 14400000,
            Interval::OneDay => 86400000,
        }
    }

    /// Duration in milliseconds, for contracts.
    pub open spec fn spec_millis(&self) -> int {
        match self {
            Interval::OneSecond => 1000,
            Interval::OneMinute => 60000,
            Interval::FiveMinutes => 300000,
            Interval::FifteenMinutes => 900000,
            Interval::ThirtyMinutes => 1800000,
            Interval::OneHour => 3600000,
            Interval::FourHours => 14400000,
            Interval::OneDay => 86400000,
        }
    }
}

/// Fixed-precision display policy for y-axis labels.
#[derive(Clone, Copy, PartialEq, Eq, Structural, Debug)]
pub struct Numeric {
    /// Digits after the decimal point; also the fixed-point scale of prices.
    pub precision: u8,
}

impl Default for Numeric {
    fn default() -> (r: Self)
        ensures r.precision == 3,
    {
        Numeric { precision: 3 }
    }
}

/// A foreground color for a drawn cell.
#[derive(Clone, Copy, PartialEq, Eq, Structural, Debug)]
pub enum Color {
    Reset,
    Rgb(u8, u8, u8),
}

/// Base style: only a foreground color is carried.
#[derive(Clone, Copy, PartialEq, Eq, Structural, Debug)]
pub struct Style {
    pub fg: Color,
}

impl Default for Style {
    fn default() -> (r: Self)
        ensures r.fg == Color::Reset,
    {
        Style { fg: Color::Reset }
    }
}

/// Fit mode: fixed scale, or stretch/squash to fill the viewport.
#[derive(Clone, PartialEq, Eq, Structural, Debug)]
pub enum ChartFitMode {
    /// Fixed scale: one candle per column regardless of window size.
    Fixed,
    /// Fit to available space: stretch or squash to fill the width.
    Fit,
}

/// Window boundaries published to the caller after a render, driving
/// scroll-limit logic: the first real candle's timestamp (the earliest point
/// worth panning to), the last placeholder's timestamp (the latest), the
/// interval, the true last-real-data timestamp, and whether the rendered
/// set's earliest timestamp precedes the first real candle.
#[derive(Clone, Copy, PartialEq, Eq, Structural, Debug)]
pub struct ChartInfo {
    pub earliest_timestamp: i64,
    pub latest_timestamp: i64,
    pub interval: Interval,
    pub last_real_timestamp: i64,
    pub scrolled_past_start: bool,
}

/// The selection bounds of one render: candles with timestamps in
/// `[start, end]` are the rendered set.
#[derive(Clone, Copy, PartialEq, Eq, Structural, Debug)]
pub struct Window {
    pub start: i64,
    pub end: i64,
}

/// Caller-owned state: the optional pinned cursor, and the last window info.
#[derive(Clone, Copy, PartialEq, Eq, Structural, Debug)]
pub struct CandleStickChartState {
    pub cursor_timestamp: Option<i64>,
    pub info: Option<ChartInfo>,
}

impl CandleStickChartState {
    /// Fresh state: tracking the live edge, nothing rendered yet.
    pub fn new() -> (r: Self)
        ensures
            r.cursor_timestamp is None,
            r.info is None,
    {
        CandleStickChartState { cursor_timestamp: None, info: None }
    }

    /// Pin the view to a historical timestamp.
    pub fn set_cursor(&mut self, timestamp: i64)
        ensures
            final(self).cursor_timestamp == Some(timestamp),
            final(self).info == old(self).info,
    {
        self.cursor_timestamp = Some(timestamp);
    }

    /// Return to tracking the newest data.
    pub fn clear_cursor(&mut self)
        ensures
            final(self).cursor_timestamp is None,
            final(self).info == old(self).info,
    {
        self.cursor_timestamp = None;
    }
}

/// The visible window: `end` is the pinned cursor if any, else the last real
/// timestamp; `start` reaches back one interval per remaining data column.
/// `scrolled_past_start` reports that the window begins before the first real
/// candle. Clearing the cursor therefore always returns the view to the
/// newest data, and pinning it strictly before the earliest real timestamp
/// always sets the flag.
pub fn compute_window(
    last_real: i64,
    interval_millis: i64,
    data_columns: u16,
    cursor: Option<i64>,
) -> (r: Window)
    requires
        0 < interval_millis <= 0x6000_0000,
        data_columns > 0,
        -0x2000_0000_0000_0000 <= last_real <= 0x2000_0000_0000_0000,
        cursor matches Some(c) ==> -0x2000_0000_0000_0000 <= c <= 0x2000_0000_0000_0000,
    ensures
        r.end == (match cursor { Some(c) => c, None => last_real }),
        r.start == r.end - interval_millis * (data_columns - 1),
        cursor is None ==> r.end == last_real,
{
    let end: i64 = match cursor {
        Some(c) => c,
        None => last_real,
    };
    proof {
        assert(0 <= interval_millis * (data_columns - 1) <= 0x6000_0000 * 0xFFFF) by (nonlinear_arith)
            requires 0 < interval_millis <= 0x6000_0000, 0 <= data_columns - 1 < 0x1_0000,
        ;
    }
    let start: i64 = end - interval_millis * (data_columns as i64 - 1);
    Window { start, end }
}

/// The info published after a render over the given window. The rendered
/// set's earliest timestamp is the first point of the placeholder grid
/// (spaced one interval, anchored at the first real candle) at or after
/// `window.start`, so it precedes the first real candle exactly when
/// `window.start + interval <= first_real`.
pub fn publish_info(
    first_real: i64,
    last_real: i64,
    interval: Interval,
    data_columns: u16,
    window: Window,
) -> (r: ChartInfo)
    requires
        -0x2000_0000_0000_0000 <= first_real <= last_real <= 0x2000_0000_0000_0000,
        -0x4000_0000_0000_0000 <= window.start <= 0x4000_0000_0000_0000,
        data_columns > 0,
    ensures
        r.earliest_timestamp == first_real,
        r.latest_timestamp == last_real + interval.spec_millis() * (data_columns - 1),
        r.interval == interval,
        r.last_real_timestamp == last_real,
        r.scrolled_past_start == (window.start + interval.spec_millis() <= first_real),
{
    let step: i64 = interval.millis();
    proof {
        assert(0 <= step * (data_columns - 1) <= 86400000 * 0xFFFF) by (nonlinear_arith)
            requires 0 < step <= 86400000, 0 <= data_columns - 1 < 0x1_0000,
        ;
    }
    ChartInfo {
        earliest_timestamp: first_real,
        latest_timestamp: last_real + step * (data_columns as i64 - 1),
        interval,
        last_real_timestamp: last_real,
        scrolled_past_start: window.start + step <= first_real,
    }
}

/// Pinning the cursor strictly before the series' earliest real timestamp
/// sets the scrolled-past-start flag (for any viewport of at least two data
/// columns; a one-column viewport shows the cursor cell alone).
pub proof fn lemma_cursor_before_start_flags(
    w: Window,
    info: ChartInfo,
    first_real: i64,
    c: i64,
    interval_millis: int,
    cols: int,
)
    requires
        w.end == c,
        c < first_real,
        interval_millis > 0,
        cols >= 2,
        w.start == w.end - interval_millis * (cols - 1),
        info.scrolled_past_start == (w.start + interval_millis <= first_real),
    ensures
        info.scrolled_past_start,
{
    assert(interval_millis * (cols - 1) >= interval_millis) by (nonlinear_arith)
        requires interval_millis > 0, cols >= 2,
    ;
}

/// The candlestick chart widget configuration. Built once, then refined by
/// the with-option methods, each of which replaces one field.
#[derive(Clone, PartialEq, Eq, Debug)]
pub struct CandleStickChart {
    pub interval: Interval,
    pub candles: Vec<Candle>,
    pub numeric: Numeric,
    pub style: Style,
    pub bearish_color: Color,
    pub bullish_color: Color,
    pub bearish_wick_color: Color,
    pub bullish_wick_color: Color,
    /// Display offset from UTC, in seconds; labels only, timestamps stay UTC.
    pub display_timezone: i32,
    pub show_y_axis: bool,
    pub show_x_axis: bool,
    pub fit_mode: ChartFitMode,
}

impl CandleStickChart {
    /// Default configuration for the given interval: empty series, precision
    /// three, green/red candles, UTC labels, both axes, fixed scale.
    pub fn new(interval: Interval) -> (r: Self)
        ensures
            r.interval == interval,
            r.candles@.len() == 0,
            r.numeric.precision == 3,
            r.style.fg == Color::Reset,
            r.bearish_color == Color::Rgb(234, 74, 90),
            r.bullish_color == Color::Rgb(52, 208, 88),
            r.bearish_wick_color == Color::Rgb(234, 74, 90),
            r.bullish_wick_color == Color::Rgb(52, 208, 88),
            r.display_timezone == 0,
            r.show_y_axis,
            r.show_x_axis,
            r.fit_mode == ChartFitMode::Fixed,
    {
        CandleStickChart {
            interval,
            candles: Vec::new(),
            numeric: Numeric { precision: 3 },
            style: Style { fg: Color::Reset },
            bearish_color: Color::Rgb(234, 74, 90),
            bullish_color: Color::Rgb(52, 208, 88),
            bearish_wick_color: Color::Rgb(234, 74, 90),
            bullish_wick_color: Color::Rgb(52, 208, 88),
            display_timezone: 0,
            show_y_axis: true,
            show_x_axis: true,
            fit_mode: ChartFitMode::Fixed,
        }
    }

    /// Replaces the candle series.
    pub fn candles(self, candles: Vec<Candle>) -> (r: Self)
        ensures r == (CandleStickChart { candles: r.candles, ..self }) && r.candles == candles,
    {
        CandleStickChart { candles, ..self }
    }

    /// Replaces the y-axis display policy.
    pub fn y_axis_numeric(self, numeric: Numeric) -> (r: Self)
        ensures r == (CandleStickChart { numeric, ..self }),
    {
        CandleStickChart { numeric, ..self }
    }

    /// Replaces the base style.
    pub fn style(self, style: Style) -> (r: Self)
        ensures r == (CandleStickChart { style, ..self }),
    {
        CandleStickChart { style, ..self }
    }

    /// Replaces the bearish body color.
    pub fn bearish_color(self, color: Color) -> (r: Self)
        ensures r == (CandleStickChart { bearish_color: color, ..self }),
    {
        CandleStickChart { bearish_color: color, ..self }
    }

    /// Replaces the bullish body color.
    pub fn bullish_color(self, color: Color) -> (r: Self)
        ensures r == (CandleStickChart { bullish_color: color, ..self }),
    {
        CandleStickChart { bullish_color: color, ..self }
    }

    /// Replaces the bearish wick color.
    pub fn bearish_wick_color(self, color: Color) -> (r: Self)
        ensures r == (CandleStickChart { bearish_wick_color: color, ..self }),
    {
        CandleStickChart { bearish_wick_color: color, ..self }
    }

    /// Replaces the bullish wick color.
    pub fn bullish_wick_color(self, color: Color) -> (r: Self)
        ensures r == (CandleStickChart { bullish_wick_color: color, ..self }),
    {
        CandleStickChart { bullish_wick_color: color, ..self }
    }

    /// Replaces the display offset (seconds east of UTC), labels only.
    pub fn display_timezone(self, offset_seconds: i32) -> (r: Self)
        ensures r == (CandleStickChart { display_timezone: offset_seconds, ..self }),
    {
        CandleStickChart { display_timezone: offset_seconds, ..self }
    }

    /// Shows or hides the y axis.
    pub fn show_y_axis(self, show: bool) -> (r: Self)
        ensures r == (CandleStickChart { show_y_axis: show, ..self }),
    {
        CandleStickChart { show_y_axis: show, ..self }
    }

    /// Shows or hides the x axis.
    pub fn show_x_axis(self, show: bool) -> (r: Self)
        ensures r == (CandleStickChart { show_x_axis: show, ..self }),
    {
        CandleStickChart { show_x_axis: show, ..self }
    }

    /// Replaces the fit mode.
    pub fn fit_mode(self, mode: ChartFitMode) -> (r: Self)
        ensures r == (CandleStickChart { fit_mode: mode, ..self }),
    {
        CandleStickChart { fit_mode: mode, ..self }
    }
}

} // verus!
