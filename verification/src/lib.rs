//! Candlestick chart core: OHLC candles, squash/stretch layout, axis ticks,
//! window selection, and sub-character glyph selection for terminal rendering.
use vstd::prelude::*;

mod candle;
mod format;
mod layout;
mod y_axis;
mod chart;
mod glyph;
mod render;
mod time_label;

pub use candle::{Candle, CandleType, ValidationError, merge, squash, spec_merge,
    lemma_merge_bounds, lemma_merge_associative, lemma_merge_regrouping};
pub use format::{format_price, price_chars, lemma_price_chars_len};
pub use layout::{stretch_layout, gap_marked};
pub use y_axis::{y_tick_value, lemma_y_axis_monotonic};
pub use chart::{CandleStickChart, ChartFitMode, CandleStickChartState, ChartInfo, Window, Interval, Numeric, Color, Style, compute_window, publish_info, lemma_cursor_before_start_flags};
pub use render::{Cell, estimated_width, lemma_render_deterministic, spec_base_columns,
    spec_candle_column, spec_candle_visible, spec_columns, spec_deep, spec_draw,
    spec_estimated_width, spec_fill_cells, spec_fixed_columns, spec_gaps, spec_grid,
    spec_grid_row, spec_gutter_width, spec_indexed_columns, spec_label_cells,
    spec_label_in_range, spec_plain_gutter, spec_reset_cell, spec_ruler, spec_spaces,
    spec_span, spec_squashed, spec_stretch_columns, spec_tick_gutter,
    spec_time_label_cells, spec_visible_range, spec_window_candles, spec_window_end,
    spec_x_axis_height, spec_y_range};
pub use time_label::{civil_of, long_label, short_label, long_label_text, short_label_text};
pub use glyph::{Glyph, glyph_at, glyph_symbol, glyph_symbol_spec, glyph_is_wick, glyph_wick_spec, render_candle_column};

verus! {

} // verus!
