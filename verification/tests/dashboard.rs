use perf_metrics::cache::{
    print_state_size, CacheDbRecord, CacheStats, CycleRate, Function, CACHE_FUNCTION_COUNT,
    CACHE_STATS_LEN,
};
use perf_metrics::commons::{
    print, Align, CellValue, Print, Ratio, ReportLine, TimeDistributionStats, COL_WIDTH,
    COL_WIDTH_BIG, COL_WIDTH_MIDDLE,
};
use perf_metrics::listener::{dispatch_step, handle_all, handle_event, DispatchStep, MetricEvent};

fn ratio_f64(r: &Ratio) -> f64 {
    r.num as f64 / r.den as f64
}

fn empty_hist() -> TimeDistributionStats {
    TimeDistributionStats {
        span_in_ns: 0,
        span_in_us: 0,
        ns_percentile: vec![],
        us_percentile: vec![],
    }
}

fn scenario_record() -> CacheDbRecord {
    CacheDbRecord {
        access: vec![10, 0, 5, 0],
        hits: vec![8, 0, 5, 0],
        misses: vec![2, 0, 0, 0],
        penalty_cycles: vec![2_000_000, 0, 0, 0],
        percentile: empty_hist(),
    }
}

// With half a nanosecond per cycle, 2,000,000 cycles last 0.001 s.
fn half_ns_per_cycle() -> CycleRate {
    CycleRate { num: 1, den: 2 }
}

fn uint_of(line: &ReportLine, cell: usize) -> u128 {
    match line {
        ReportLine::Cells(cells) => match &cells[cell].value {
            CellValue::Uint(n) => *n,
            _ => panic!("expected an integer cell"),
        },
        ReportLine::Blank => panic!("expected a cell line"),
    }
}

fn percent_of(line: &ReportLine, cell: usize) -> Ratio {
    match line {
        ReportLine::Cells(cells) => match &cells[cell].value {
            CellValue::Percent(r) => *r,
            _ => panic!("expected a percent cell"),
        },
        ReportLine::Blank => panic!("expected a cell line"),
    }
}

fn text_of(line: &ReportLine, cell: usize) -> String {
    match line {
        ReportLine::Cells(cells) => match &cells[cell].value {
            CellValue::Text(s) => s.clone(),
            _ => panic!("expected a text cell"),
        },
        ReportLine::Blank => panic!("expected a cell line"),
    }
}

#[test]
fn scenario_four_functions() {
    let rec = scenario_record();
    assert!(rec.wf_check());
    let rate = half_ns_per_cycle();
    let stats = CacheStats::from_record(&rec, &rate);
    let f = &stats.functions;
    assert_eq!(f.len(), CACHE_STATS_LEN);
    assert_eq!(f[0].hits, 8);
    assert_eq!(f[0].misses, 2);
    assert!((ratio_f64(&f[0].miss_ratio) - 0.2).abs() < 1e-12);
    assert!((ratio_f64(&f[0].penalty) - 0.001).abs() < 1e-12);
    assert!((ratio_f64(&f[0].avg_penalty) - 500.0).abs() < 1e-9);
    assert!(!ratio_f64(&f[1].miss_ratio).is_finite());
    assert!(!ratio_f64(&f[1].avg_penalty).is_finite());
    assert_eq!(f[4].hits, 13);
    assert_eq!(f[4].misses, 2);
    assert!((ratio_f64(&f[4].miss_ratio) - 2.0 / 15.0).abs() < 1e-12);
    assert!((ratio_f64(&f[4].penalty) - 0.001).abs() < 1e-12);
    assert!((ratio_f64(&f[4].avg_penalty) - 500.0).abs() < 1e-9);
}

#[test]
fn total_row_is_elementwise_sum() {
    let rec = CacheDbRecord {
        access: vec![7, 11, 13, 17],
        hits: vec![5, 9, 10, 14],
        misses: vec![2, 2, 3, 3],
        penalty_cycles: vec![100, 200, 300, 400],
        percentile: empty_hist(),
    };
    assert!(rec.wf_check());
    let stats = CacheStats::from_record(&rec, &CycleRate { num: 3, den: 1 });
    let f = &stats.functions;
    let hit_sum: u64 = (0..CACHE_FUNCTION_COUNT).map(|i| f[i].hits).sum();
    let miss_sum: u64 = (0..CACHE_FUNCTION_COUNT).map(|i| f[i].misses).sum();
    assert_eq!(f[CACHE_STATS_LEN - 1].hits, hit_sum);
    assert_eq!(f[CACHE_STATS_LEN - 1].misses, miss_sum);
    // The total ratios are recomputed from the sums, not averaged from rows.
    assert_eq!(f[4].miss_ratio, Ratio { num: 10, den: 48 });
    // Total penalty: 1000 cycles * 3 ns each over one second.
    assert_eq!(f[4].penalty, Ratio { num: 3000, den: 1_000_000_000 });
    assert_eq!(f[4].avg_penalty, Ratio { num: 3000, den: 1000 * 10 });
}

#[test]
fn miss_ratio_is_exact_and_zero_access_is_non_finite() {
    let rec = CacheDbRecord {
        access: vec![4, 0, 1, 8],
        hits: vec![1, 0, 1, 6],
        misses: vec![3, 0, 0, 2],
        penalty_cycles: vec![9, 0, 0, 4],
        percentile: empty_hist(),
    };
    assert!(rec.wf_check());
    let stats = CacheStats::from_record(&rec, &CycleRate { num: 1, den: 1 });
    let f = &stats.functions;
    assert_eq!(f[0].miss_ratio, Ratio { num: 3, den: 4 });
    assert!((ratio_f64(&f[0].miss_ratio) - 0.75).abs() < 1e-12);
    assert!(!ratio_f64(&f[1].miss_ratio).is_finite());
    assert_eq!(f[3].miss_ratio, Ratio { num: 2, den: 8 });
}

#[test]
fn zero_misses_gives_non_finite_avg_penalty() {
    let rec = CacheDbRecord {
        access: vec![4, 5, 1, 8],
        hits: vec![4, 5, 1, 8],
        misses: vec![0, 0, 0, 0],
        penalty_cycles: vec![0, 0, 0, 0],
        percentile: empty_hist(),
    };
    assert!(rec.wf_check());
    let stats = CacheStats::from_record(&rec, &CycleRate { num: 1, den: 1 });
    for i in 0..CACHE_STATS_LEN {
        assert!(!ratio_f64(&stats.functions[i].avg_penalty).is_finite());
        assert!(!stats.functions[i].avg_penalty.is_finite_check());
    }
}

fn dual_hist() -> TimeDistributionStats {
    // 20 fine buckets, so the boundary is floor(20 * 100 / 1000) = 2; the
    // fine counts (sum 10) are the same observations as the first two coarse
    // buckets (6 + 4), and the coarse remainder adds 7 + 3.
    let mut ns = vec![0u64; 20];
    ns[0] = 5;
    ns[1] = 5;
    TimeDistributionStats {
        span_in_ns: 20,
        span_in_us: 4,
        ns_percentile: ns,
        us_percentile: vec![6, 4, 7, 3],
    }
}

#[test]
fn histogram_cumulative_reaches_one_hundred_percent() {
    let hist = dual_hist();
    let lines = hist.print_content();
    // header + 20 fine rows + 2 coarse rows + 8 summary lines
    assert_eq!(lines.len(), 1 + 20 + 2 + 8);
    let last_coarse = &lines[1 + 20 + 1];
    let cuml = percent_of(last_coarse, 4);
    assert_eq!(cuml.num, cuml.den);
    assert!((ratio_f64(&cuml) * 100.0 - 100.0).abs() < 1e-9);
}

#[test]
fn histogram_rows_and_summary() {
    let hist = dual_hist();
    let lines = hist.print_content();
    // First fine row: bucket label 100 ns, 5 of 20 observations, 25% each.
    assert_eq!(uint_of(&lines[1], 0), 100);
    assert_eq!(percent_of(&lines[1], 2), Ratio { num: 5, den: 20 });
    assert_eq!(percent_of(&lines[1], 4), Ratio { num: 5, den: 20 });
    // Second fine row: label 200 ns, cumulative 10 of 20.
    assert_eq!(uint_of(&lines[2], 0), 200);
    assert_eq!(percent_of(&lines[2], 4), Ratio { num: 10, den: 20 });
    // First reported coarse row starts at the boundary index 2: label 3000 ns,
    // count 7, cumulative 17 of 20 (the overlap is not double counted).
    let first_coarse = &lines[1 + 20];
    assert_eq!(uint_of(first_coarse, 0), 3000);
    assert_eq!(percent_of(first_coarse, 2), Ratio { num: 7, den: 20 });
    assert_eq!(percent_of(first_coarse, 4), Ratio { num: 17, den: 20 });
    // Summary block: total count, spans, raw arrays.
    let base = 1 + 20 + 2;
    assert!(matches!(lines[base], ReportLine::Blank));
    assert_eq!(text_of(&lines[base + 1], 0), "========>:");
    assert_eq!(text_of(&lines[base + 2], 0), "Total count: ");
    assert_eq!(uint_of(&lines[base + 2], 1), 20);
    assert_eq!(uint_of(&lines[base + 3], 1), 20);
    assert_eq!(uint_of(&lines[base + 4], 1), 4);
    match &lines[base + 5] {
        ReportLine::Cells(cells) => match &cells[1].value {
            CellValue::UintList(v) => {
                assert_eq!(v.len(), 20);
                assert_eq!(v[0], 5);
            }
            _ => panic!("expected the raw fine bucket array"),
        },
        ReportLine::Blank => panic!("expected a cell line"),
    }
    match &lines[base + 6] {
        ReportLine::Cells(cells) => match &cells[1].value {
            CellValue::UintList(v) => assert_eq!(v, &vec![6, 4, 7, 3]),
            _ => panic!("expected the raw coarse bucket array"),
        },
        ReportLine::Blank => panic!("expected a cell line"),
    }
    assert!(matches!(lines[base + 7], ReportLine::Blank));
}

#[test]
fn boundary_is_floor_of_fine_span_over_coarse_width() {
    let mut hist = dual_hist();
    assert_eq!(hist.coarse_start(), 2);
    hist.span_in_ns = 9;
    hist.ns_percentile = vec![0; 9];
    hist.span_in_us = 1;
    hist.us_percentile = vec![0];
    assert_eq!(hist.coarse_start(), 0);
    hist.span_in_ns = 19;
    hist.ns_percentile = vec![0; 19];
    hist.span_in_us = 2;
    hist.us_percentile = vec![0, 0];
    assert_eq!(hist.coarse_start(), 1);
}

#[test]
fn boundary_equal_to_span_reports_no_coarse_rows() {
    let hist = TimeDistributionStats {
        span_in_ns: 20,
        span_in_us: 2,
        ns_percentile: vec![1; 20],
        us_percentile: vec![10, 10],
    };
    let lines = hist.print_content();
    // header + 20 fine rows + 0 coarse rows + 8 summary lines
    assert_eq!(lines.len(), 1 + 20 + 8);
    assert!(matches!(lines[21], ReportLine::Blank));
}

#[test]
fn report_composition_is_blank_title_content_blank() {
    let rec = scenario_record();
    let stats = CacheStats::from_record(&rec, &half_ns_per_cycle());
    let lines = print(&stats, 77);
    assert_eq!(lines.len(), 1 + 2 + 5 + 1);
    assert!(matches!(lines[0], ReportLine::Blank));
    assert!(text_of(&lines[1], 0).contains("Metric of State"));
    assert_eq!(text_of(&lines[2], 0), "State functions");
    assert_eq!(text_of(&lines[2], 1), "Hits");
    assert_eq!(text_of(&lines[2], 2), "Misses");
    assert_eq!(text_of(&lines[2], 3), "Miss ratio (%)");
    assert_eq!(text_of(&lines[2], 4), "Penalty time (s)");
    assert_eq!(text_of(&lines[2], 5), "Avg penalty (μs)");
    assert_eq!(text_of(&lines[3], 0), "blockhash");
    assert_eq!(text_of(&lines[4], 0), "code_by_hash");
    assert_eq!(text_of(&lines[5], 0), "load_account/basic");
    assert_eq!(text_of(&lines[6], 0), "storage");
    assert_eq!(text_of(&lines[7], 0), "total");
    assert!(matches!(lines[8], ReportLine::Blank));
}

#[test]
fn cache_row_cells_carry_the_shared_column_widths() {
    let rec = scenario_record();
    let stats = CacheStats::from_record(&rec, &half_ns_per_cycle());
    let row = stats.print_item("blockhash", Function::BlockHash.as_index());
    match &row {
        ReportLine::Cells(cells) => {
            assert_eq!(cells.len(), 6);
            assert_eq!(cells[0].width, COL_WIDTH_BIG);
            assert_eq!(cells[0].align, Align::Left);
            assert_eq!(cells[1].width, COL_WIDTH_MIDDLE);
            assert_eq!(cells[1].align, Align::Right);
            assert_eq!(cells[3].width, COL_WIDTH_BIG);
            assert_eq!(cells[3].align, Align::Right);
        }
        ReportLine::Blank => panic!("expected a cell line"),
    }
    assert_eq!(uint_of(&row, 1), 8);
    assert_eq!(uint_of(&row, 2), 2);
    let hist_lines = dual_hist().print_content();
    match &hist_lines[0] {
        ReportLine::Cells(cells) => {
            assert_eq!(cells[0].width, COL_WIDTH);
            assert_eq!(text_of(&hist_lines[0], 0), "Time (ns)");
            assert_eq!(text_of(&hist_lines[0], 1), " ");
        }
        ReportLine::Blank => panic!("expected a cell line"),
    }
}

#[test]
fn state_size_line() {
    let lines = print_state_size(42, 1234);
    assert_eq!(lines.len(), 3);
    assert!(matches!(lines[0], ReportLine::Blank));
    assert_eq!(text_of(&lines[1], 0), "Block number: ");
    assert_eq!(uint_of(&lines[1], 1), 42);
    assert_eq!(text_of(&lines[1], 2), ", State size: ");
    assert_eq!(uint_of(&lines[1], 3), 1234);
    assert!(matches!(lines[2], ReportLine::Blank));
}

fn event_with_block(block_number: u64, size: usize) -> MetricEvent {
    MetricEvent::CacheDbInfo { block_number, size, record: scenario_record() }
}

#[test]
fn dispatcher_handles_three_events_in_order_then_terminates() {
    let events = vec![
        event_with_block(1, 10),
        event_with_block(2, 20),
        event_with_block(3, 30),
    ];
    let reports = handle_all(&events, &half_ns_per_cycle());
    assert_eq!(reports.len(), 3);
    for (i, report) in reports.iter().enumerate() {
        // Each report opens with the state-size line of its own event.
        assert!(matches!(report[0], ReportLine::Blank));
        assert_eq!(uint_of(&report[1], 1), (i as u128) + 1);
        assert_eq!(uint_of(&report[1], 3), ((i as u128) + 1) * 10);
    }
    // After the queue, the loop's only termination is channel closure.
    match dispatch_step(None, &half_ns_per_cycle()) {
        DispatchStep::Terminated => {}
        DispatchStep::Report(_) => panic!("a closed channel must terminate the loop"),
    }
}

#[test]
fn dispatcher_on_empty_closed_channel_invokes_no_handler() {
    let events: Vec<MetricEvent> = vec![];
    let reports = handle_all(&events, &half_ns_per_cycle());
    assert_eq!(reports.len(), 0);
}

#[test]
fn dispatch_step_renders_an_arrived_event() {
    let step = dispatch_step(Some(event_with_block(9, 5)), &half_ns_per_cycle());
    match step {
        DispatchStep::Report(lines) => {
            let direct = handle_event(&event_with_block(9, 5), &half_ns_per_cycle());
            assert_eq!(lines.len(), direct.len());
            assert_eq!(uint_of(&lines[1], 1), 9);
        }
        DispatchStep::Terminated => panic!("an arrived event must be rendered"),
    }
}

#[test]
fn event_report_holds_stats_table_and_penalty_section() {
    let lines = handle_event(&event_with_block(5, 100), &half_ns_per_cycle());
    // state size (3) + blank, title (2), rows (5), blank + penalty section:
    // blank, banner, histogram table (header + 0 rows + 8 summary), blank.
    assert_eq!(lines.len(), 3 + 9 + 2 + 9 + 1);
    assert_eq!(text_of(&lines[1], 0), "Block number: ");
    assert!(text_of(&lines[4], 0).contains("Metric of State"));
    assert_eq!(text_of(&lines[13], 0), "================Penalty Percentile=============");
}

#[test]
fn malformed_snapshots_are_rejected_by_the_check() {
    let mut rec = scenario_record();
    rec.access = vec![1, 2, 3];
    assert!(!rec.wf_check());
    let event = MetricEvent::CacheDbInfo { block_number: 1, size: 1, record: rec };
    assert!(!event.wf_check());
    let mut bad_hist = scenario_record();
    bad_hist.percentile.span_in_ns = 7;
    assert!(!bad_hist.wf_check());
    assert!(scenario_record().wf_check());
}
