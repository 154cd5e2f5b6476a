use candlestick_chart::{
    glyph_at, glyph_is_wick, glyph_symbol, merge, squash, stretch_layout, y_tick_value, Candle,
    CandleStickChart, CandleStickChartState, CandleType, ChartFitMode, Glyph, Interval,
};

// Prices are fixed-point thousandths throughout: 900 stands for 0.9.

#[test]
fn candle_validation() {
    assert!(Candle::new(0, 900, 3000, 0, 2100).is_ok());
    assert!(Candle::new(0, 900, 800, 0, 500).is_err()); // open above high
    assert!(Candle::new(0, 900, 3000, 1000, 2100).is_err()); // low above open
    let c = Candle::new(0, 900, 3000, 0, 2100).unwrap();
    assert_eq!(c.classify(), CandleType::Bullish);
    let d = Candle::new(0, 2100, 3000, 0, 900).unwrap();
    assert_eq!(d.classify(), CandleType::Bearish);
}

#[test]
fn squash_merges_extremes() {
    // More candles than columns: merged high is the true maximum high and
    // merged low the true minimum low of each source group.
    let candles = vec![
        Candle::new(0, 900, 3000, 0, 2100).unwrap(),
        Candle::new(60000, 2100, 4200, 2100, 3900).unwrap(),
        Candle::new(120000, 3900, 4100, 2000, 2300).unwrap(),
        Candle::new(180000, 2300, 3900, 1300, 2000).unwrap(),
        Candle::new(240000, 2000, 5200, 900, 3900).unwrap(),
    ];
    let merged = squash(&candles, 2);
    assert_eq!(merged.len(), 3);
    assert_eq!(merged[0].open, 900);
    assert_eq!(merged[0].close, 3900);
    assert_eq!(merged[0].high, 4200);
    assert_eq!(merged[0].low, 0);
    assert_eq!(merged[0].timestamp, 0);
    assert_eq!(merged[1].high, 4100);
    assert_eq!(merged[1].low, 1300);
    assert_eq!(merged[2].high, 5200);
    assert_eq!(merged[2].low, 900);
    // every merged candle keeps the OHLC invariant
    for m in merged.iter() {
        assert!(m.low <= m.open && m.open <= m.high);
        assert!(m.low <= m.close && m.close <= m.high);
    }
}

#[test]
fn merge_associative_over_boundaries() {
    // merging in groups of 2 and then pairing the results equals merging by 4
    let candles = vec![
        Candle::new(0, 900, 3000, 0, 2100).unwrap(),
        Candle::new(1, 2100, 4200, 2100, 3900).unwrap(),
        Candle::new(2, 3900, 4100, 2000, 2300).unwrap(),
        Candle::new(3, 2300, 3900, 1300, 2000).unwrap(),
    ];
    let once = squash(&candles, 4);
    let twice = squash(&squash(&candles, 2), 2);
    assert_eq!(once, twice);
}

#[test]
fn stretch_sums_to_columns() {
    // width * count + extra gaps == data columns, gaps differ by at most one
    for (count, columns) in [(1usize, 14usize), (3, 19), (5, 6), (4, 11), (7, 7)] {
        let (w, gaps) = stretch_layout(count, columns);
        let marked = gaps.iter().filter(|g| **g).count();
        assert_eq!(w * count + marked, columns);
        assert_eq!(gaps.len(), count - 1);
    }
    let (w, gaps) = stretch_layout(4, 11);
    assert_eq!(w, 2);
    assert_eq!(gaps.iter().filter(|g| **g).count(), 3);
}

#[test]
fn y_ticks_match_reference_labels() {
    // one candle (open 0.9, high 3.0, low 0.0, close 2.1) on a five-row chart:
    // top tick 3.000, bottom printed tick 0.600
    assert_eq!(y_tick_value(0, 3000, 5, 0), 3000);
    assert_eq!(y_tick_value(0, 3000, 5, 4), 600);
    // visible range 0.0..5.2: top 5.200, bottom printed tick 1.040
    assert_eq!(y_tick_value(0, 5200, 5, 0), 5200);
    assert_eq!(y_tick_value(0, 5200, 5, 4), 1040);
    // strictly decreasing down the axis
    let mut prev = y_tick_value(0, 5200, 5, 0);
    for row in 1..=5u16 {
        let v = y_tick_value(0, 5200, 5, row);
        assert!(v < prev);
        prev = v;
    }
}

#[test]
fn cursor_panning_flags() {
    let mut state = CandleStickChartState::new();
    assert!(state.cursor_timestamp.is_none());
    // pinning strictly before the earliest real timestamp flags the view
    state.set_cursor(-60000);
    let w = candlestick_chart::compute_window(240000, 60000, 6, state.cursor_timestamp);
    assert_eq!(w.end, -60000);
    let info = candlestick_chart::publish_info(0, 240000, Interval::OneMinute, 6, w);
    assert!(info.scrolled_past_start);
    assert_eq!(info.earliest_timestamp, 0);
    assert_eq!(info.latest_timestamp, 240000 + 60000 * 5);
    assert_eq!(info.interval, Interval::OneMinute);
    assert_eq!(info.last_real_timestamp, 240000);
    // clearing the cursor returns to tracking the newest data
    state.clear_cursor();
    let w = candlestick_chart::compute_window(240000, 60000, 5, state.cursor_timestamp);
    assert_eq!(w.end, 240000);
    assert_eq!(w.start, 0);
    let info = candlestick_chart::publish_info(0, 240000, Interval::OneMinute, 5, w);
    assert!(!info.scrolled_past_start);
}

fn render_to_strings(chart: &CandleStickChart, width: u16, height: u16) -> Option<Vec<String>> {
    let mut state = CandleStickChartState::new();
    let fill = candlestick_chart::Cell {
        symbol: 'x',
        fg: candlestick_chart::Color::Reset,
    };
    let grid = chart.render(width, height, fill, &mut state)?;
    Some(
        grid.into_iter()
            .map(|row| row.into_iter().map(|c| c.symbol).collect())
            .collect(),
    )
}

#[test]
fn empty_candle() {
    let chart = CandleStickChart::new(Interval::OneMinute).candles(vec![]);
    assert!(render_to_strings(&chart, 14, 8).is_none());
}

#[test]
fn simple_candle() {
    let chart = CandleStickChart::new(Interval::OneMinute)
        .candles(vec![Candle::new(0, 900, 3000, 0, 2100).unwrap()]);
    let rows = render_to_strings(&chart, 14, 8).unwrap();
    assert_eq!(
        rows,
        vec![
            "     3.000 ├ │",
            "           │ │",
            "           │ ┃",
            "           │ │",
            "     0.600 ├ │",
            "xxxxxxxxxxx└──",
            "xxxxxxxxxxxxx ",
            "xxxxxxxxxxxxxx",
        ]
    );
}

#[test]
fn simple_candle_with_x_label() {
    let chart = CandleStickChart::new(Interval::OneMinute)
        .candles(vec![Candle::new(0, 900, 3000, 0, 2100).unwrap()]);
    let rows = render_to_strings(&chart, 30, 8).unwrap();
    assert_eq!(
        rows,
        vec![
            "     3.000 ├ xxxxxxxxxxxxxxxx│",
            "           │ xxxxxxxxxxxxxxxx│",
            "           │ xxxxxxxxxxxxxxxx┃",
            "           │ xxxxxxxxxxxxxxxx│",
            "     0.600 ├ xxxxxxxxxxxxxxxx│",
            "xxxxxxxxxxx└─────────────────┴",
            "xxxxxxxxxxxxx*1970/01/01 00:00",
            "xxxxxxxxxxxxxxxxxxxxxxxxxxxxxx",
        ]
    );
}

#[test]
fn simple_candles_with_x_label() {
    let chart = CandleStickChart::new(Interval::OneMinute).candles(vec![
        Candle::new(0, 900, 3000, 0, 2100).unwrap(),
        Candle::new(60000, 2100, 4200, 2100, 3900).unwrap(),
        Candle::new(120000, 3900, 4100, 2000, 2300).unwrap(),
    ]);
    let rows = render_to_strings(&chart, 19, 8).unwrap();
    assert_eq!(
        rows,
        vec![
            "     4.200 ├ xxx ╽┃",
            "           │ xxx│┃┃",
            "           │ xxx│╹╿",
            "           │ xxx│  ",
            "     0.840 ├ xxx│  ",
            "xxxxxxxxxxx└──────┴",
            "xxxxxxxxxxxxx*00:02",
            "xxxxxxxxxxxxxxxxxxx",
        ]
    );
}

#[test]
fn simple_full_candles_with_x_label() {
    let chart = CandleStickChart::new(Interval::OneMinute).candles(vec![
        Candle::new(0, 900, 3000, 0, 2100).unwrap(),
        Candle::new(60000, 2100, 4200, 2100, 3900).unwrap(),
        Candle::new(120000, 3900, 4100, 2000, 2300).unwrap(),
        Candle::new(180000, 2300, 3900, 1300, 2000).unwrap(),
        Candle::new(240000, 2000, 5200, 900, 3900).unwrap(),
    ]);
    let rows = render_to_strings(&chart, 19, 8).unwrap();
    assert_eq!(
        rows,
        vec![
            "     5.200 ├ x ╷  │",
            "           │ x ╽┃││",
            "           │ x│┃╿│┃",
            "           │ x┃ ╵││",
            "     1.040 ├ x│   ╵",
            "xxxxxxxxxxx└──────┴",
            "xxxxxxxxxxxxx*00:04",
            "xxxxxxxxxxxxxxxxxxx",
        ]
    );
}

#[test]
fn simple_omitted_candles_with_x_label() {
    let chart = CandleStickChart::new(Interval::OneMinute).candles(vec![
        Candle::new(0, 900, 3000, 0, 2100).unwrap(),
        Candle::new(240000, 2000, 5200, 900, 3900).unwrap(),
    ]);
    let rows = render_to_strings(&chart, 19, 8).unwrap();
    assert_eq!(
        rows,
        vec![
            "     5.200 ├ x xxx│",
            "           │ x xxx│",
            "           │ x│xxx┃",
            "           │ x┃xxx│",
            "     1.040 ├ x│xxx╵",
            "xxxxxxxxxxx└──────┴",
            "xxxxxxxxxxxxx*00:04",
            "xxxxxxxxxxxxxxxxxxx",
        ]
    );
}

#[test]
fn simple_candle_with_not_changing() {
    let chart = CandleStickChart::new(Interval::OneSecond).candles(vec![
        Candle::new(0, 0, 1000000, 0, 50000).unwrap(),
        Candle::new(1000, 50000, 50000, 50000, 50000).unwrap(),
        Candle::new(2000, 500000, 500000, 500000, 500000).unwrap(),
    ]);
    let rows = render_to_strings(&chart, 16, 8).unwrap();
    assert_eq!(
        rows,
        vec![
            "  1000.000 ├ │  ",
            "           │ │  ",
            "           │ │ ╻",
            "           │ │  ",
            "   200.000 ├ │╻ ",
            "xxxxxxxxxxx└────",
            "xxxxxxxxxxxxx   ",
            "xxxxxxxxxxxxxxxx",
        ]
    );
}

#[test]
fn simple_candle_with_small_candle() {
    let chart = CandleStickChart::new(Interval::OneSecond).candles(vec![
        Candle::new(0, 0, 1000000, 0, 50000).unwrap(),
        Candle::new(1000, 450000, 580000, 320000, 450000).unwrap(),
        Candle::new(2000, 580000, 580000, 320000, 320000).unwrap(),
    ]);
    let rows = render_to_strings(&chart, 16, 8).unwrap();
    assert_eq!(
        rows,
        vec![
            "  1000.000 ├ │  ",
            "           │ │  ",
            "           │ │╽┃",
            "           │ │╵╹",
            "   200.000 ├ │  ",
            "xxxxxxxxxxx└────",
            "xxxxxxxxxxxxx   ",
            "xxxxxxxxxxxxxxxx",
        ]
    );
}

#[test]
fn render_is_deterministic() {
    // same inputs, no cursor or series change: byte-identical output
    let chart = CandleStickChart::new(Interval::OneMinute).candles(vec![
        Candle::new(0, 900, 3000, 0, 2100).unwrap(),
        Candle::new(60000, 2100, 4200, 2100, 3900).unwrap(),
    ]);
    let a = render_to_strings(&chart, 19, 8).unwrap();
    let b = render_to_strings(&chart, 19, 8).unwrap();
    assert_eq!(a, b);
}

#[test]
fn squash_render_fills_columns() {
    // more candles than data columns in Fit mode: squash triggers
    let mut candles = Vec::new();
    for i in 0..10i64 {
        candles.push(Candle::new(i * 60000, 1000 + i, 3000 + i, 500 + i, 2000 + i).unwrap());
    }
    let chart = CandleStickChart::new(Interval::OneMinute)
        .candles(candles)
        .fit_mode(ChartFitMode::Fit)
        .show_y_axis(false)
        .show_x_axis(false);
    // four data columns for ten candles: groups of three, ceil(10/4)
    let rows = render_to_strings(&chart, 4, 5).unwrap();
    assert_eq!(rows.len(), 5);
    for row in rows.iter() {
        assert_eq!(row.chars().count(), 4);
    }
}

#[test]
fn builder_defaults_and_options() {
    let chart = CandleStickChart::new(Interval::OneMinute);
    assert!(chart.show_y_axis && chart.show_x_axis);
    assert_eq!(chart.fit_mode, ChartFitMode::Fixed);
    assert_eq!(chart.numeric.precision, 3);
    assert_eq!(chart.display_timezone, 0);
    let chart = chart
        .candles(vec![Candle::new(0, 900, 3000, 0, 2100).unwrap()])
        .show_x_axis(false)
        .fit_mode(ChartFitMode::Fit)
        .display_timezone(3600);
    assert_eq!(chart.candles.len(), 1);
    assert!(!chart.show_x_axis);
    assert_eq!(chart.fit_mode, ChartFitMode::Fit);
    assert_eq!(chart.display_timezone, 3600);
    assert_eq!(Interval::OneMinute.millis(), 60000);
    assert_eq!(Interval::OneSecond.millis(), 1000);
}

// Glyph columns reproduce the reference renderings. Coordinates are the
// candle's boundaries mapped to axis units: numerator = (price - min) * rows,
// denominator = max - min; rows count from the bottom, row 1 lowest.

fn column(lo: i64, bmin: i64, bmax: i64, hi: i64, d: i64, rows: u16) -> String {
    // top row first, as printed
    let mut s = String::new();
    for y in (1..=rows).rev() {
        s.push(glyph_symbol(glyph_at(lo, bmin, bmax, hi, d, y)));
    }
    s
}

#[test]
fn single_candle_column() {
    // open 0.9, high 3.0, low 0.0, close 2.1 on range 0.0..3.0, five rows:
    // full wick with one full-body row in the middle
    let d = 3000;
    let col = column(0, 900 * 5, 2100 * 5, 3000 * 5, d, 5);
    assert_eq!(col, "││┃││");
}

#[test]
fn five_candle_columns() {
    // range 0.0..5.2 over five rows; the five reference candles
    let d = 5200;
    assert_eq!(column(0, 900 * 5, 2100 * 5, 3000 * 5, d, 5), "  │┃│");
    assert_eq!(column(2100 * 5, 2100 * 5, 3900 * 5, 4200 * 5, d, 5), "╷╽┃  ");
    assert_eq!(column(2000 * 5, 2300 * 5, 3900 * 5, 4100 * 5, d, 5), " ┃╿╵ ");
    assert_eq!(column(1300 * 5, 2000 * 5, 2300 * 5, 3900 * 5, d, 5), " │││ ");
    assert_eq!(column(900 * 5, 2000 * 5, 3900 * 5, 5200 * 5, d, 5), "││┃│╵");
}

#[test]
fn doji_and_flat_candles() {
    // all four prices equal: a half-body in the holding half-row
    let d = 1000;
    assert_eq!(column(50 * 5, 50 * 5, 50 * 5, 50 * 5, d, 5), "    ╻");
    assert_eq!(column(500 * 5, 500 * 5, 500 * 5, 500 * 5, d, 5), "  ╻  ");
    // flat close with a wick: body bottom half, wick above
    let d = 1000;
    assert_eq!(column(320 * 5, 450 * 5, 450 * 5, 580 * 5, d, 5), "  ╽╵ ");
    // bearish block candle without wicks
    assert_eq!(column(320 * 5, 320 * 5, 580 * 5, 580 * 5, d, 5), "  ┃╹ ");
}

#[test]
fn render_candle_column_matches_reference() {
    // one candle (0.9, 3.0, 0.0, 2.1) over range 0.0..3.0, five rows
    let c = Candle::new(0, 900, 3000, 0, 2100).unwrap();
    let col = candlestick_chart::render_candle_column(&c, 0, 3000, 5);
    let s: String = col.into_iter().map(glyph_symbol).collect();
    assert_eq!(s, "││┃││");
}

#[test]
fn price_formatting() {
    let s: String = candlestick_chart::format_price(3000, 3).into_iter().collect();
    assert_eq!(s, "3.000");
    let s: String = candlestick_chart::format_price(1040, 3).into_iter().collect();
    assert_eq!(s, "1.040");
    let s: String = candlestick_chart::format_price(1000000, 3).into_iter().collect();
    assert_eq!(s, "1000.000");
    let s: String = candlestick_chart::format_price(-250, 2).into_iter().collect();
    assert_eq!(s, "-2.50");
    let s: String = candlestick_chart::format_price(42, 0).into_iter().collect();
    assert_eq!(s, "42");
    let n = candlestick_chart::Numeric { precision: 3 };
    assert_eq!(candlestick_chart::estimated_width(n, 0, 3000), 13);
    assert_eq!(candlestick_chart::estimated_width(n, 0, 1000000), 13);
}

#[test]
fn time_label_texts() {
    let s: String = candlestick_chart::long_label_text(0, 0).into_iter().collect();
    assert_eq!(s, "1970/01/01 00:00");
    let s: String = candlestick_chart::short_label_text(240000, 0).into_iter().collect();
    assert_eq!(s, "00:04");
    // the display offset shifts labels only
    let s: String = candlestick_chart::short_label_text(240000, 3600).into_iter().collect();
    assert_eq!(s, "01:04");
}

#[test]
fn stretch_render_edge_glyphs() {
    // two candles over four data columns: each spans two columns, with
    // eighth-block wick markers and half-block body edges on its edges
    let chart = CandleStickChart::new(Interval::OneMinute)
        .candles(vec![
            Candle::new(0, 900, 3000, 0, 2100).unwrap(),
            Candle::new(60000, 2100, 4200, 2100, 3900).unwrap(),
        ])
        .fit_mode(ChartFitMode::Fit)
        .show_y_axis(false)
        .show_x_axis(false);
    let rows = render_to_strings(&chart, 4, 5).unwrap();
    assert_eq!(rows, vec!["  ╽╽", "▏▕▌▐", "▏▕╹╹", "▏▕  ", "▏▕  "]);
}

#[test]
fn wick_color_classification() {
    assert!(glyph_is_wick(Glyph::Wick));
    assert!(glyph_is_wick(Glyph::HalfWickTop));
    assert!(glyph_is_wick(Glyph::HalfWickBottom));
    assert!(glyph_is_wick(Glyph::LeftEighthWick));
    assert!(glyph_is_wick(Glyph::RightEighthWick));
    assert!(!glyph_is_wick(Glyph::LeftHalfBody));
    assert!(!glyph_is_wick(Glyph::RightHalfBody));
    assert!(!glyph_is_wick(Glyph::Body));
    assert!(!glyph_is_wick(Glyph::BodyBottomWickTop));
    assert!(!glyph_is_wick(Glyph::Void));
}
