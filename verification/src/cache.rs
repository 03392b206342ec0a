//! Cached-state metrics: the per-function counter snapshot, the derived
//! statistics table (hits, misses, miss ratio, penalty times), and its
//! rendering, including the penalty percentile section.
use vstd::prelude::*;

use crate::commons::{
    lemma_lines_v_concat, lemma_lines_v_push, lemma_sum_nonneg, lines_v, percent_cell, ratio_cell,
    sum_u64, text_cell, text_cell_right, total_of, uint_cell, uint_cell_left, Align, Cell, CellV,
    CellValueV, LineV, Print, Ratio, ReportLine, TimeDistributionStats, COL_WIDTH_BIG,
    COL_WIDTH_MIDDLE, MAX_SPAN,
};

verus! {

/// The closed set of instrumented state functions. Every counter array is
/// indexed by this enumeration, in this order.
#[derive(Clone, Copy, PartialEq, Eq, Structural, Debug)]
pub enum Function {
    BlockHash,
    CodeByHash,
    LoadCacheAccount,
    Storage,
}

/// Number of named state functions, and so the length of every counter array.
pub const CACHE_FUNCTION_COUNT: usize = 4;

/// Rows of the derived table: one per state function plus the total row,
/// which occupies the fixed final slot.
pub const CACHE_STATS_LEN: usize = 5;

impl Function {
    /// The slot of this function in every counter array.
    pub open spec fn index_spec(self) -> int {
        match self {
            Function::BlockHash => 0,
            Function::CodeByHash => 1,
            Function::LoadCacheAccount => 2,
            Function::Storage => 3,
        }
    }

    pub fn as_index(self) -> (i: usize)
        ensures
            i as int == self.index_spec(),
            i < CACHE_FUNCTION_COUNT,
    {
        match self {
            Function::BlockHash => 0,
            Function::CodeByHash => 1,
            Function::LoadCacheAccount => 2,
            Function::Storage => 3,
        }
    }
}

/// The platform's cycle-to-time conversion, as an exact rate: one cycle
/// lasts `num / den` nanoseconds. Both parts are positive and bounded, as
/// any real timer calibration is, which keeps every derived numerator and
/// denominator inside machine integers.
#[derive(Clone, Copy, PartialEq, Eq, Structural, Debug)]
pub struct CycleRate {
    pub num: u64,
    pub den: u64,
}

/// Bound on both parts of a cycle rate.
pub const MAX_RATE_PART: u64 = 1_000_000_000_000;

/// Nanoseconds in a second.
pub const NANOS_PER_SEC: u64 = 1_000_000_000;

/// Nanoseconds in a microsecond.
pub const NANOS_PER_MICRO: u64 = 1000;

impl CycleRate {
    pub open spec fn wf(self) -> bool {
        &&& 1 <= self.num <= MAX_RATE_PART
        &&& 1 <= self.den <= MAX_RATE_PART
    }

    /// Executable check of `wf`, for unverified callers that must reject a
    /// degenerate calibration before handing it in.
    pub fn wf_check(&self) -> (b: bool)
        ensures
            b == self.wf(),
    {
        1 <= self.num && self.num <= MAX_RATE_PART && 1 <= self.den && self.den <= MAX_RATE_PART
    }
}

/// An immutable snapshot of the accumulated cache counters: per state
/// function a total access count, hit and miss counts, a penalty time in
/// raw cycles, and the dual-resolution percentile histogram of penalty
/// latencies.
pub struct CacheDbRecord {
    pub access: Vec<u64>,
    pub hits: Vec<u64>,
    pub misses: Vec<u64>,
    pub penalty_cycles: Vec<u64>,
    pub percentile: TimeDistributionStats,
}

impl CacheDbRecord {
    /// Consistency of the snapshot: every counter array has one slot per
    /// state function, the accumulated counters sum within the machine
    /// integer they were accumulated in, and the histogram is well formed.
    pub open spec fn wf(self) -> bool {
        &&& self.access@.len() == CACHE_FUNCTION_COUNT
        &&& self.hits@.len() == CACHE_FUNCTION_COUNT
        &&& self.misses@.len() == CACHE_FUNCTION_COUNT
        &&& self.penalty_cycles@.len() == CACHE_FUNCTION_COUNT
        &&& sum_u64(self.access@) <= u64::MAX
        &&& sum_u64(self.hits@) <= u64::MAX
        &&& sum_u64(self.misses@) <= u64::MAX
        &&& sum_u64(self.penalty_cycles@) <= u64::MAX
        &&& self.percentile.wf()
    }

    /// Executable check of `wf`, for unverified callers that must reject a
    /// malformed snapshot before handing it in.
    pub fn wf_check(&self) -> (b: bool)
        ensures
            b == self.wf(),
    {
        let lens_ok = self.access.len() == CACHE_FUNCTION_COUNT && self.hits.len()
            == CACHE_FUNCTION_COUNT && self.misses.len() == CACHE_FUNCTION_COUNT
            && self.penalty_cycles.len() == CACHE_FUNCTION_COUNT;
        let sums_ok = total_of(&self.access) <= u64::MAX as u128 && total_of(&self.hits)
            <= u64::MAX as u128 && total_of(&self.misses) <= u64::MAX as u128 && total_of(
            &self.penalty_cycles,
        ) <= u64::MAX as u128;
        let hist_ok = self.percentile.span_in_ns == self.percentile.ns_percentile.len()
            && self.percentile.span_in_us == self.percentile.us_percentile.len()
            && self.percentile.span_in_ns <= MAX_SPAN && self.percentile.span_in_us <= MAX_SPAN
            && self.percentile.coarse_start_wide() <= self.percentile.span_in_us as u128;
        lens_ok && sums_ok && hist_ok
    }
}

/// One display-ready row: raw hit and miss counts, and the derived ratio and
/// penalty fields as exact rationals. A zero denominator stands for the
/// non-finite value the zero-denominator division yields when displayed.
#[derive(Clone, Copy, PartialEq, Eq, Structural, Debug)]
pub struct CacheStat {
    pub hits: u64,
    pub misses: u64,
    /// misses / accesses.
    pub miss_ratio: Ratio,
    /// Penalty time in seconds: cycles * rate / nanoseconds-per-second.
    pub penalty: Ratio,
    /// Average penalty per miss in microseconds.
    pub avg_penalty: Ratio,
}

/// The derived row for one state function.
pub open spec fn row_spec(
    hits: u64,
    misses: u64,
    access: u64,
    penalty_cycles: u64,
    rate: CycleRate,
) -> CacheStat {
    CacheStat {
        hits,
        misses,
        miss_ratio: Ratio { num: misses as u128, den: access as u128 },
        penalty: Ratio {
            num: (penalty_cycles * rate.num) as u128,
            den: (rate.den * NANOS_PER_SEC) as u128,
        },
        avg_penalty: Ratio {
            num: (penalty_cycles * rate.num) as u128,
            den: (rate.den * NANOS_PER_MICRO * misses) as u128,
        },
    }
}

/// The synthetic total row: counters are summed first, then the same
/// formulas are applied to the sums (they are not averages of the per-row
/// ratios).
pub open spec fn total_row_spec(rec: CacheDbRecord, rate: CycleRate) -> CacheStat {
    row_spec(
        sum_u64(rec.hits@) as u64,
        sum_u64(rec.misses@) as u64,
        sum_u64(rec.access@) as u64,
        sum_u64(rec.penalty_cycles@) as u64,
        rate,
    )
}

/// The full derived row set: one row per state function, in enumeration
/// order, and the total row in the fixed final slot.
pub open spec fn stats_spec(rec: CacheDbRecord, rate: CycleRate) -> Seq<CacheStat> {
    Seq::new(
        CACHE_FUNCTION_COUNT as nat,
        |i: int|
            row_spec(rec.hits@[i], rec.misses@[i], rec.access@[i], rec.penalty_cycles@[i], rate),
    ).push(total_row_spec(rec, rate))
}

/// The derived statistics table for the cache family.
pub struct CacheStats {
    pub functions: Vec<CacheStat>,
}

impl CacheStats {
    pub open spec fn wf(self) -> bool {
        self.functions@.len() == CACHE_STATS_LEN
    }

    /// Derives the whole row set from a counter snapshot: copies hits and
    /// misses, forms each ratio from its exact numerator and denominator,
    /// and fills the total row from the summed counters.
    pub fn from_record(record: &CacheDbRecord, rate: &CycleRate) -> (r: CacheStats)
        requires
            record.wf(),
            rate.wf(),
        ensures
            r.wf(),
            r.functions@ == stats_spec(*record, *rate),
    {
        let mut functions: Vec<CacheStat> = Vec::new();
        let mut i: usize = 0;
        while i < CACHE_FUNCTION_COUNT
            invariant
                record.wf(),
                rate.wf(),
                0 <= i <= CACHE_FUNCTION_COUNT,
                functions@.len() == i,
                forall|t: int|
                    0 <= t < i ==> functions@[t] == row_spec(
                        record.hits@[t],
                        record.misses@[t],
                        record.access@[t],
                        record.penalty_cycles@[t],
                        *rate,
                    ),
            decreases CACHE_FUNCTION_COUNT - i,
        {
            let row = derive_row(
                record.hits[i],
                record.misses[i],
                record.access[i],
                record.penalty_cycles[i],
                rate,
            );
            functions.push(row);
            i = i + 1;
        }
        proof {
            lemma_sum_nonneg(record.hits@);
            lemma_sum_nonneg(record.misses@);
            lemma_sum_nonneg(record.access@);
            lemma_sum_nonneg(record.penalty_cycles@);
        }
        let total_hits = total_of(&record.hits) as u64;
        let total_misses = total_of(&record.misses) as u64;
        let total_access = total_of(&record.access) as u64;
        let total_penalty = total_of(&record.penalty_cycles) as u64;
        let total_row = derive_row(total_hits, total_misses, total_access, total_penalty, rate);
        functions.push(total_row);
        proof {
            assert(functions@ =~= stats_spec(*record, *rate));
        }
        CacheStats { functions }
    }
}

/// Law: in the derived row set, the total row's hits and misses are exactly
/// the elementwise sums of the named rows' hits and misses.
pub proof fn lemma_total_row_sums(rec: CacheDbRecord, rate: CycleRate)
    requires
        rec.wf(),
        rate.wf(),
    ensures
        stats_spec(rec, rate)[CACHE_STATS_LEN - 1].hits as int == sum_u64(
            stats_spec(rec, rate).take(CACHE_FUNCTION_COUNT as int).map_values(
                |s: CacheStat| s.hits,
            ),
        ),
        stats_spec(rec, rate)[CACHE_STATS_LEN - 1].misses as int == sum_u64(
            stats_spec(rec, rate).take(CACHE_FUNCTION_COUNT as int).map_values(
                |s: CacheStat| s.misses,
            ),
        ),
{
    lemma_sum_nonneg(rec.hits@);
    lemma_sum_nonneg(rec.misses@);
    assert(stats_spec(rec, rate).take(CACHE_FUNCTION_COUNT as int).map_values(
        |s: CacheStat| s.hits,
    ) =~= rec.hits@);
    assert(stats_spec(rec, rate).take(CACHE_FUNCTION_COUNT as int).map_values(
        |s: CacheStat| s.misses,
    ) =~= rec.misses@);
}

/// Law: each named row's miss ratio is exactly its misses over its accesses,
/// and it is finite exactly when the access count is not zero.
pub proof fn lemma_miss_ratio_exact(rec: CacheDbRecord, rate: CycleRate)
    requires
        rec.wf(),
        rate.wf(),
    ensures
        forall|i: int|
            0 <= i < CACHE_FUNCTION_COUNT ==> #[trigger] stats_spec(rec, rate)[i].miss_ratio
                == (Ratio { num: rec.misses@[i] as u128, den: rec.access@[i] as u128 }),
        forall|i: int|
            0 <= i < CACHE_FUNCTION_COUNT ==> (#[trigger] stats_spec(
                rec,
                rate,
            )[i].miss_ratio.is_finite() <==> rec.access@[i] != 0),
{
}

/// The average-penalty denominator is zero exactly when the miss count is.
proof fn lemma_avg_den_zero(rate: CycleRate, misses: u64)
    requires
        rate.wf(),
    ensures
        ((rate.den * NANOS_PER_MICRO * misses) as u128 == 0) <==> misses == 0,
{
    assert(0 <= rate.den * NANOS_PER_MICRO * misses <= u128::MAX && (rate.den * NANOS_PER_MICRO
        * misses == 0 <==> misses == 0)) by (nonlinear_arith)
        requires
            1 <= rate.den <= MAX_RATE_PART,
            0 <= misses <= u64::MAX,
    ;
}

/// Law: every derived row's average penalty is finite exactly when the row
/// has misses; in particular a row without misses has a non-finite average
/// penalty.
pub proof fn lemma_avg_penalty_finiteness(rec: CacheDbRecord, rate: CycleRate)
    requires
        rec.wf(),
        rate.wf(),
    ensures
        forall|i: int|
            0 <= i < CACHE_STATS_LEN ==> (#[trigger] stats_spec(
                rec,
                rate,
            )[i].avg_penalty.is_finite() <==> stats_spec(rec, rate)[i].misses != 0),
{
    let rows = stats_spec(rec, rate);
    assert forall|i: int| 0 <= i < CACHE_STATS_LEN implies (#[trigger] rows[i].avg_penalty.is_finite()
        <==> rows[i].misses != 0) by {
        lemma_avg_den_zero(rate, rows[i].misses);
    }
}

/// Applies the derivation formulas to one function's counters.
fn derive_row(hits: u64, misses: u64, access: u64, penalty_cycles: u64, rate: &CycleRate) -> (s:
    CacheStat)
    requires
        rate.wf(),
    ensures
        s == row_spec(hits, misses, access, penalty_cycles, *rate),
{
    proof {
        assert(penalty_cycles * rate.num <= u128::MAX) by (nonlinear_arith)
            requires
                penalty_cycles <= u64::MAX,
                rate.num <= MAX_RATE_PART,
        ;
        assert(rate.den * NANOS_PER_SEC <= u128::MAX) by (nonlinear_arith)
            requires
                rate.den <= MAX_RATE_PART,
        ;
        assert(rate.den * NANOS_PER_MICRO * misses <= u128::MAX) by (nonlinear_arith)
            requires
                rate.den <= MAX_RATE_PART,
                misses <= u64::MAX,
        ;
    }
    let penalty_num: u128 = penalty_cycles as u128 * rate.num as u128;
    CacheStat {
        hits,
        misses,
        miss_ratio: Ratio { num: misses as u128, den: access as u128 },
        penalty: Ratio { num: penalty_num, den: rate.den as u128 * NANOS_PER_SEC as u128 },
        avg_penalty: Ratio {
            num: penalty_num,
            den: rate.den as u128 * NANOS_PER_MICRO as u128 * misses as u128,
        },
    }
}

/// One rendered row of the cache table: label, raw counts, then the three
/// derived decimal fields.
pub open spec fn row_line_v(label: Seq<char>, s: CacheStat) -> LineV {
    LineV::Cells(
        seq![
            CellV { value: CellValueV::Text(label), width: COL_WIDTH_BIG, align: Align::Left },
            CellV {
                value: CellValueV::Uint(s.hits as u128),
                width: COL_WIDTH_MIDDLE,
                align: Align::Right,
            },
            CellV {
                value: CellValueV::Uint(s.misses as u128),
                width: COL_WIDTH_MIDDLE,
                align: Align::Right,
            },
            CellV {
                value: CellValueV::Percent(s.miss_ratio),
                width: COL_WIDTH_BIG,
                align: Align::Right,
            },
            CellV { value: CellValueV::Ratio(s.penalty), width: COL_WIDTH_BIG, align: Align::Right },
            CellV {
                value: CellValueV::Ratio(s.avg_penalty),
                width: COL_WIDTH_BIG,
                align: Align::Right,
            },
        ],
    )
}

/// The cache table's title: a separator banner and the column header row.
pub open spec fn cache_title_v() -> Seq<LineV> {
    seq![
        LineV::Cells(
            seq![
                CellV {
                    value: CellValueV::Text(
                        "================================================ Metric of State ==========================================="@,
                    ),
                    width: 0,
                    align: Align::Left,
                },
            ],
        ),
        LineV::Cells(
            seq![
                CellV {
                    value: CellValueV::Text("State functions"@),
                    width: COL_WIDTH_BIG,
                    align: Align::Left,
                },
                CellV { value: CellValueV::Text("Hits"@), width: COL_WIDTH_MIDDLE, align: Align::Right },
                CellV {
                    value: CellValueV::Text("Misses"@),
                    width: COL_WIDTH_MIDDLE,
                    align: Align::Right,
                },
                CellV {
                    value: CellValueV::Text("Miss ratio (%)"@),
                    width: COL_WIDTH_BIG,
                    align: Align::Right,
                },
                CellV {
                    value: CellValueV::Text("Penalty time (s)"@),
                    width: COL_WIDTH_BIG,
                    align: Align::Right,
                },
                CellV {
                    value: CellValueV::Text("Avg penalty (μs)"@),
                    width: COL_WIDTH_BIG,
                    align: Align::Right,
                },
            ],
        ),
    ]
}

/// The five rendered rows of a derived row set, one per state function in
/// enumeration order and the total row last.
pub open spec fn rows_lines_v(rows: Seq<CacheStat>) -> Seq<LineV> {
    seq![
        row_line_v("blockhash"@, rows[0]),
        row_line_v("code_by_hash"@, rows[1]),
        row_line_v("load_account/basic"@, rows[2]),
        row_line_v("storage"@, rows[3]),
        row_line_v("total"@, rows[4]),
    ]
}

impl CacheStats {
    /// Renders the row of the given slot under the given label.
    pub fn print_item(&self, function: &str, index: usize) -> (l: ReportLine)
        requires
            self.wf(),
            index < CACHE_STATS_LEN,
        ensures
            l@ == row_line_v(function@, self.functions@[index as int]),
    {
        let stat = &self.functions[index];
        let mut cells: Vec<Cell> = Vec::new();
        cells.push(text_cell(function, COL_WIDTH_BIG));
        cells.push(uint_cell(stat.hits as u128, COL_WIDTH_MIDDLE));
        cells.push(uint_cell(stat.misses as u128, COL_WIDTH_MIDDLE));
        cells.push(percent_cell(stat.miss_ratio, COL_WIDTH_BIG));
        cells.push(ratio_cell(stat.penalty, COL_WIDTH_BIG));
        cells.push(ratio_cell(stat.avg_penalty, COL_WIDTH_BIG));
        let l = ReportLine::Cells(cells);
        proof {
            assert(l@ =~~= row_line_v(function@, self.functions@[index as int]));
        }
        l
    }
}

impl Print for CacheStats {
    open spec fn print_wf(&self) -> bool {
        self.wf()
    }

    open spec fn title_v(&self) -> Seq<LineV> {
        cache_title_v()
    }

    open spec fn content_v(&self) -> Seq<LineV> {
        rows_lines_v(self.functions@)
    }

    fn print_title(&self) -> (r: Vec<ReportLine>) {
        let mut r: Vec<ReportLine> = Vec::new();
        let mut banner: Vec<Cell> = Vec::new();
        banner.push(
            text_cell(
                "================================================ Metric of State ===========================================",
                0,
            ),
        );
        r.push(ReportLine::Cells(banner));
        let mut header: Vec<Cell> = Vec::new();
        header.push(text_cell("State functions", COL_WIDTH_BIG));
        header.push(text_cell_right("Hits", COL_WIDTH_MIDDLE));
        header.push(text_cell_right("Misses", COL_WIDTH_MIDDLE));
        header.push(text_cell_right("Miss ratio (%)", COL_WIDTH_BIG));
        header.push(text_cell_right("Penalty time (s)", COL_WIDTH_BIG));
        header.push(text_cell_right("Avg penalty (μs)", COL_WIDTH_BIG));
        r.push(ReportLine::Cells(header));
        proof {
            assert(lines_v(r@) =~~= cache_title_v());
        }
        r
    }

    fn print_content(&self) -> (r: Vec<ReportLine>) {
        let mut r: Vec<ReportLine> = Vec::new();
        r.push(self.print_item("blockhash", Function::BlockHash.as_index()));
        r.push(self.print_item("code_by_hash", Function::CodeByHash.as_index()));
        r.push(self.print_item("load_account/basic", Function::LoadCacheAccount.as_index()));
        r.push(self.print_item("storage", Function::Storage.as_index()));
        r.push(self.print_item("total", CACHE_STATS_LEN - 1));
        proof {
            assert(lines_v(r@) =~~= rows_lines_v(self.functions@));
        }
        r
    }
}

/// The penalty percentile section that follows the cache table: a banner and
/// the histogram table, framed by blank lines.
pub open spec fn penalty_v(rec: CacheDbRecord) -> Seq<LineV> {
    seq![
        LineV::Blank,
        LineV::Cells(
            seq![
                CellV {
                    value: CellValueV::Text("================Penalty Percentile============="@),
                    width: 0,
                    align: Align::Left,
                },
            ],
        ),
    ] + rec.percentile.table_v() + seq![LineV::Blank]
}

/// The whole report for one snapshot: the derived statistics table in the
/// fixed composition, then the penalty percentile section.
pub open spec fn record_report_v(rec: CacheDbRecord, rate: CycleRate) -> Seq<LineV> {
    seq![LineV::Blank] + cache_title_v() + rows_lines_v(stats_spec(rec, rate)) + seq![LineV::Blank]
        + penalty_v(rec)
}

impl CacheDbRecord {
    /// Renders the penalty percentile section of this snapshot.
    pub fn print_penalty(&self) -> (r: Vec<ReportLine>)
        requires
            self.wf(),
        ensures
            lines_v(r@) == penalty_v(*self),
    {
        let mut r: Vec<ReportLine> = Vec::new();
        r.push(ReportLine::Blank);
        let mut banner: Vec<Cell> = Vec::new();
        banner.push(text_cell("================Penalty Percentile=============", 0));
        r.push(ReportLine::Cells(banner));
        let ghost head = r@;
        let mut table = self.percentile.print_content();
        let ghost table_snap = table@;
        r.append(&mut table);
        let ghost with_table = r@;
        r.push(ReportLine::Blank);
        proof {
            lemma_lines_v_concat(head, table_snap);
            lemma_lines_v_push(with_table, ReportLine::Blank);
            assert(lines_v(r@) =~~= penalty_v(*self));
        }
        r
    }

    /// Derives and renders the whole report for this snapshot.
    pub fn print(&self, block_number: u64, rate: &CycleRate) -> (r: Vec<ReportLine>)
        requires
            self.wf(),
            rate.wf(),
        ensures
            lines_v(r@) == record_report_v(*self, *rate),
    {
        let stats = CacheStats::from_record(self, rate);
        let mut r = crate::commons::print(&stats, block_number);
        let ghost head = r@;
        let mut pen = self.print_penalty();
        let ghost pen_snap = pen@;
        r.append(&mut pen);
        proof {
            lemma_lines_v_concat(head, pen_snap);
            assert(lines_v(r@) =~~= record_report_v(*self, *rate));
        }
        r
    }
}

/// The state-size line that opens a cache report, framed by blank lines.
pub open spec fn state_size_v(block_number: u64, size: usize) -> Seq<LineV> {
    seq![
        LineV::Blank,
        LineV::Cells(
            seq![
                CellV { value: CellValueV::Text("Block number: "@), width: 0, align: Align::Left },
                CellV { value: CellValueV::Uint(block_number as u128), width: 0, align: Align::Left },
                CellV { value: CellValueV::Text(", State size: "@), width: 0, align: Align::Left },
                CellV { value: CellValueV::Uint(size as u128), width: 0, align: Align::Left },
            ],
        ),
        LineV::Blank,
    ]
}

/// Renders the block number and state size announcement.
pub fn print_state_size(block_number: u64, size: usize) -> (r: Vec<ReportLine>)
    ensures
        lines_v(r@) == state_size_v(block_number, size),
{
    let mut r: Vec<ReportLine> = Vec::new();
    r.push(ReportLine::Blank);
    let mut cells: Vec<Cell> = Vec::new();
    cells.push(text_cell("Block number: ", 0));
    cells.push(uint_cell_left(block_number as u128, 0));
    cells.push(text_cell(", State size: ", 0));
    cells.push(uint_cell_left(size as u128, 0));
    r.push(ReportLine::Cells(cells));
    r.push(ReportLine::Blank);
    proof {
        assert(lines_v(r@) =~~= state_size_v(block_number, size));
    }
    r
}

} // verus!
