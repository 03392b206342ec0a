//! Report-rendering commons: exact rational values, report lines made of
//! aligned cells, the `Print` capability with its fixed composition, and the
//! dual-resolution latency histogram table.
use vstd::prelude::*;

verus! {

/// Wide column, used for labels and derived (decimal) fields.
pub const COL_WIDTH_BIG: usize = 20;

/// Narrow column, used for raw counts in the cache table.
pub const COL_WIDTH_MIDDLE: usize = 14;

/// Column width of the histogram table.
pub const COL_WIDTH: usize = 15;

/// An exact rational value. Its displayed value is `num / den`; the value is
/// finite exactly when `den != 0`. A zero denominator is deliberately kept
/// (the printing shell renders it as the non-finite result of the division).
#[derive(Clone, Copy, PartialEq, Eq, Structural, Debug)]
pub struct Ratio {
    pub num: u128,
    pub den: u128,
}

impl Ratio {
    /// The value is finite exactly when the denominator is non-zero.
    pub open spec fn is_finite(self) -> bool {
        self.den != 0
    }

    /// Executable finiteness test.
    pub fn is_finite_check(&self) -> (b: bool)
        ensures
            b == self.is_finite(),
    {
        self.den != 0
    }
}

/// Horizontal alignment of a cell within its column.
#[derive(Clone, Copy, PartialEq, Eq, Structural, Debug)]
pub enum Align {
    Left,
    Right,
}

/// The value carried by one table cell. `Ratio` cells are displayed as the
/// quotient with three decimal places; `Percent` cells as the quotient times
/// one hundred, also with three decimal places.
pub enum CellValue {
    Text(String),
    Uint(u128),
    UintList(Vec<u64>),
    Ratio(Ratio),
    Percent(Ratio),
}

/// One cell of a report line: a value padded to `width` with `align`ment.
/// A width of zero means the value is written without padding.
pub struct Cell {
    pub value: CellValue,
    pub width: usize,
    pub align: Align,
}

/// One line of a rendered report.
pub enum ReportLine {
    Blank,
    Cells(Vec<Cell>),
}

/// Mathematical image of a `CellValue`.
#[verifier::ext_equal]
pub enum CellValueV {
    Text(Seq<char>),
    Uint(u128),
    UintList(Seq<u64>),
    Ratio(Ratio),
    Percent(Ratio),
}

/// Mathematical image of a `Cell`.
#[verifier::ext_equal]
pub struct CellV {
    pub value: CellValueV,
    pub width: usize,
    pub align: Align,
}

/// Mathematical image of a `ReportLine`.
#[verifier::ext_equal]
pub enum LineV {
    Blank,
    Cells(Seq<CellV>),
}

impl View for CellValue {
    type V = CellValueV;

    open spec fn view(&self) -> CellValueV {
        match self {
            CellValue::Text(s) => CellValueV::Text(s@),
            CellValue::Uint(n) => CellValueV::Uint(*n),
            CellValue::UintList(v) => CellValueV::UintList(v@),
            CellValue::Ratio(r) => CellValueV::Ratio(*r),
            CellValue::Percent(r) => CellValueV::Percent(*r),
        }
    }
}

impl View for Cell {
    type V = CellV;

    open spec fn view(&self) -> CellV {
        CellV { value: self.value@, width: self.width, align: self.align }
    }
}

impl View for ReportLine {
    type V = LineV;

    open spec fn view(&self) -> LineV {
        match self {
            ReportLine::Blank => LineV::Blank,
            ReportLine::Cells(cells) => LineV::Cells(cells@.map_values(|c: Cell| c@)),
        }
    }
}

/// The mathematical image of a whole report: its lines, in order.
pub open spec fn lines_v(lines: Seq<ReportLine>) -> Seq<LineV> {
    lines.map_values(|l: ReportLine| l@)
}

/// Sum of a sequence of counters, as an unbounded integer.
pub open spec fn sum_u64(s: Seq<u64>) -> int
    decreases s.len(),
{
    if s.len() == 0 {
        0
    } else {
        sum_u64(s.drop_last()) + s.last()
    }
}

pub proof fn lemma_sum_nonneg(s: Seq<u64>)
    ensures
        0 <= sum_u64(s),
    decreases s.len(),
{
    if s.len() > 0 {
        lemma_sum_nonneg(s.drop_last());
    }
}

pub proof fn lemma_sum_bound(s: Seq<u64>)
    ensures
        sum_u64(s) <= s.len() * u64::MAX,
    decreases s.len(),
{
    if s.len() == 0 {
    } else {
        lemma_sum_bound(s.drop_last());
        assert((s.len() - 1) * u64::MAX + u64::MAX == s.len() * u64::MAX) by (nonlinear_arith);
    }
}

/// Extending a prefix by one element adds that element to its sum.
pub proof fn lemma_sum_take_succ(s: Seq<u64>, n: int)
    requires
        0 <= n < s.len(),
    ensures
        sum_u64(s.take(n + 1)) == sum_u64(s.take(n)) + s[n],
{
    assert(s.take(n + 1).drop_last() =~= s.take(n));
    assert(s.take(n + 1).last() == s[n]);
}

pub proof fn lemma_sum_concat(a: Seq<u64>, b: Seq<u64>)
    ensures
        sum_u64(a + b) == sum_u64(a) + sum_u64(b),
    decreases b.len(),
{
    if b.len() == 0 {
        assert(a + b =~= a);
    } else {
        lemma_sum_concat(a, b.drop_last());
        assert((a + b).drop_last() =~= a + b.drop_last());
        assert((a + b).last() == b.last());
    }
}

/// A sum splits at any index into the sum of the prefix and the sum of the rest.
pub proof fn lemma_sum_split(s: Seq<u64>, n: int)
    requires
        0 <= n <= s.len(),
    ensures
        sum_u64(s) == sum_u64(s.take(n)) + sum_u64(s.subrange(n, s.len() as int)),
{
    assert(s =~= s.take(n) + s.subrange(n, s.len() as int));
    lemma_sum_concat(s.take(n), s.subrange(n, s.len() as int));
}

/// Sums a vector of counters exactly, into an integer wide enough that the
/// sum cannot overflow.
pub fn total_of(counts: &Vec<u64>) -> (t: u128)
    ensures
        t == sum_u64(counts@),
{
    let mut t: u128 = 0;
    let mut i: usize = 0;
    proof {
        assert(counts@.take(0) =~= Seq::<u64>::empty());
    }
    while i < counts.len()
        invariant
            0 <= i <= counts@.len(),
            t == sum_u64(counts@.take(i as int)),
        decreases counts@.len() - i,
    {
        proof {
            lemma_sum_take_succ(counts@, i as int);
            lemma_sum_nonneg(counts@.take(i as int));
            lemma_sum_bound(counts@.take(i as int));
            assert(i * u64::MAX + u64::MAX <= u128::MAX) by (nonlinear_arith)
                requires
                    0 <= i <= usize::MAX,
            ;
        }
        t = t + counts[i] as u128;
        i = i + 1;
    }
    proof {
        assert(counts@.take(counts@.len() as int) =~= counts@);
    }
    t
}

/// A left-aligned text cell of the given width.
pub fn text_cell(text: &str, width: usize) -> (c: Cell)
    ensures
        c@ == (CellV { value: CellValueV::Text(text@), width, align: Align::Left }),
{
    Cell { value: CellValue::Text(String::from_str(text)), width, align: Align::Left }
}

/// A right-aligned text cell of the given width.
pub fn text_cell_right(text: &str, width: usize) -> (c: Cell)
    ensures
        c@ == (CellV { value: CellValueV::Text(text@), width, align: Align::Right }),
{
    Cell { value: CellValue::Text(String::from_str(text)), width, align: Align::Right }
}

/// A right-aligned integer cell of the given width.
pub fn uint_cell(n: u128, width: usize) -> (c: Cell)
    ensures
        c@ == (CellV { value: CellValueV::Uint(n), width, align: Align::Right }),
{
    Cell { value: CellValue::Uint(n), width, align: Align::Right }
}

/// A left-aligned integer cell of the given width.
pub fn uint_cell_left(n: u128, width: usize) -> (c: Cell)
    ensures
        c@ == (CellV { value: CellValueV::Uint(n), width, align: Align::Left }),
{
    Cell { value: CellValue::Uint(n), width, align: Align::Left }
}

/// A right-aligned exact-quotient cell of the given width.
pub fn ratio_cell(r: Ratio, width: usize) -> (c: Cell)
    ensures
        c@ == (CellV { value: CellValueV::Ratio(r), width, align: Align::Right }),
{
    Cell { value: CellValue::Ratio(r), width, align: Align::Right }
}

/// A right-aligned percentage cell of the given width.
pub fn percent_cell(r: Ratio, width: usize) -> (c: Cell)
    ensures
        c@ == (CellV { value: CellValueV::Percent(r), width, align: Align::Right }),
{
    Cell { value: CellValue::Percent(r), width, align: Align::Right }
}

/// The single-space separator that stands between histogram columns.
pub open spec fn space_v() -> CellV {
    CellV { value: CellValueV::Text(" "@), width: 0, align: Align::Left }
}

pub fn space_cell() -> (c: Cell)
    ensures
        c@ == space_v(),
{
    text_cell(" ", 0)
}

/// Mapping a view over a sequence distributes over `push`.
pub proof fn lemma_lines_v_push(s: Seq<ReportLine>, l: ReportLine)
    ensures
        lines_v(s.push(l)) =~= lines_v(s).push(l@),
{
}

/// Mapping a view over a sequence distributes over concatenation.
pub proof fn lemma_lines_v_concat(a: Seq<ReportLine>, b: Seq<ReportLine>)
    ensures
        lines_v(a + b) =~= lines_v(a) + lines_v(b),
{
}

/// The display capability of every statistics table: a title section and a
/// content section, each a list of report lines whose mathematical image is
/// pinned by `title_v` and `content_v`.
pub trait Print {
    /// Well-formedness the table needs before it can be rendered.
    spec fn print_wf(&self) -> bool;

    /// The title section, as its mathematical image.
    spec fn title_v(&self) -> Seq<LineV>;

    /// The content section, as its mathematical image.
    spec fn content_v(&self) -> Seq<LineV>;

    fn print_title(&self) -> (r: Vec<ReportLine>)
        requires
            self.print_wf(),
        ensures
            lines_v(r@) == self.title_v(),
    ;

    fn print_content(&self) -> (r: Vec<ReportLine>)
        requires
            self.print_wf(),
        ensures
            lines_v(r@) == self.content_v(),
    ;
}

/// The fixed composition every report goes through: a blank line, the title
/// section, the content section, a closing blank line. It is a free function
/// on purpose, so no table can override the report shape.
pub fn print<T: Print>(t: &T, _block_number: u64) -> (r: Vec<ReportLine>)
    requires
        t.print_wf(),
    ensures
        lines_v(r@) == seq![LineV::Blank] + t.title_v() + t.content_v() + seq![LineV::Blank],
{
    let mut r: Vec<ReportLine> = Vec::new();
    r.push(ReportLine::Blank);
    let mut title = t.print_title();
    let ghost title_snap = title@;
    let mut content = t.print_content();
    let ghost content_snap = content@;
    let ghost head = r@;
    r.append(&mut title);
    proof {
        lemma_lines_v_concat(head, title_snap);
    }
    let ghost with_title = r@;
    r.append(&mut content);
    proof {
        lemma_lines_v_concat(with_title, content_snap);
    }
    let ghost with_content = r@;
    r.push(ReportLine::Blank);
    proof {
        lemma_lines_v_push(with_content, ReportLine::Blank);
        assert(lines_v(head) =~= seq![LineV::Blank]);
        assert(lines_v(r@) =~= seq![LineV::Blank] + t.title_v() + t.content_v()
            + seq![LineV::Blank]);
    }
    r
}

/// A dual-resolution latency histogram: a fine array of 100 ns buckets over
/// the low range and a coarse array of 1000 ns (1 us) buckets over the full
/// range. The coarse array alone covers every observation, so the total
/// observation count is the sum of its entries.
pub struct TimeDistributionStats {
    /// Number of fine (100 ns wide) buckets.
    pub span_in_ns: usize,
    /// Number of coarse (1000 ns wide) buckets.
    pub span_in_us: usize,
    /// Fine bucket counts, one per 100 ns step.
    pub ns_percentile: Vec<u64>,
    /// Coarse bucket counts, one per 1000 ns step.
    pub us_percentile: Vec<u64>,
}

/// Width of a fine histogram bucket, in nanoseconds.
pub const FINE_BUCKET_NS: usize = 100;

/// Width of a coarse histogram bucket, in nanoseconds.
pub const COARSE_BUCKET_NS: usize = 1000;

/// Cap on the bucket spans, far above any real histogram, which keeps every
/// bucket-label and boundary computation inside machine integers.
pub const MAX_SPAN: usize = 10_000_000;

impl TimeDistributionStats {
    pub open spec fn wf(self) -> bool {
        &&& self.span_in_ns == self.ns_percentile@.len()
        &&& self.span_in_us == self.us_percentile@.len()
        &&& self.span_in_ns <= MAX_SPAN
        &&& self.span_in_us <= MAX_SPAN
        &&& self.boundary() <= self.span_in_us
    }

    /// The first coarse bucket index not already covered by the fine array:
    /// the floor of fine length times fine width over coarse width.
    pub open spec fn boundary(self) -> int {
        (self.span_in_ns * FINE_BUCKET_NS) / (COARSE_BUCKET_NS as int)
    }

    /// Total observation count: the coarse array covers the full range, so
    /// its entries sum to the whole population.
    pub open spec fn total(self) -> int {
        sum_u64(self.us_percentile@)
    }

    /// Running cumulative count after fine bucket `j`.
    pub open spec fn fine_cum(self, j: int) -> int {
        sum_u64(self.ns_percentile@.take(j + 1))
    }

    /// Running cumulative count after coarse bucket `k`: all fine buckets
    /// plus the coarse buckets from the boundary up to `k`.
    pub open spec fn coarse_cum(self, k: int) -> int {
        sum_u64(self.ns_percentile@) + sum_u64(
            self.us_percentile@.subrange(self.boundary(), k + 1),
        )
    }

    pub open spec fn header_v() -> LineV {
        LineV::Cells(
            seq![
                CellV { value: CellValueV::Text("Time (ns)"@), width: COL_WIDTH, align: Align::Left },
                space_v(),
                CellV { value: CellValueV::Text("Count (%)"@), width: COL_WIDTH, align: Align::Right },
                space_v(),
                CellV { value: CellValueV::Text("Cuml. (%)"@), width: COL_WIDTH, align: Align::Right },
            ],
        )
    }

    /// Fine data row `j`: upper bucket bound in ns, the bucket's share of the
    /// population, and the running cumulative share.
    pub open spec fn fine_row_v(self, j: int) -> LineV {
        LineV::Cells(
            seq![
                CellV {
                    value: CellValueV::Uint((((j + 1) * FINE_BUCKET_NS) as u128)),
                    width: COL_WIDTH,
                    align: Align::Left,
                },
                space_v(),
                CellV {
                    value: CellValueV::Percent(
                        Ratio { num: self.ns_percentile@[j] as u128, den: self.total() as u128 },
                    ),
                    width: COL_WIDTH,
                    align: Align::Right,
                },
                space_v(),
                CellV {
                    value: CellValueV::Percent(
                        Ratio { num: self.fine_cum(j) as u128, den: self.total() as u128 },
                    ),
                    width: COL_WIDTH,
                    align: Align::Right,
                },
            ],
        )
    }

    /// Coarse data row `k`, for `k` from the boundary on: upper bucket bound
    /// in ns, the bucket's share, and the cumulative share continued from the
    /// fine pass.
    pub open spec fn coarse_row_v(self, k: int) -> LineV {
        LineV::Cells(
            seq![
                CellV {
                    value: CellValueV::Uint((((k + 1) * COARSE_BUCKET_NS) as u128)),
                    width: COL_WIDTH,
                    align: Align::Left,
                },
                space_v(),
                CellV {
                    value: CellValueV::Percent(
                        Ratio { num: self.us_percentile@[k] as u128, den: self.total() as u128 },
                    ),
                    width: COL_WIDTH,
                    align: Align::Right,
                },
                space_v(),
                CellV {
                    value: CellValueV::Percent(
                        Ratio { num: self.coarse_cum(k) as u128, den: self.total() as u128 },
                    ),
                    width: COL_WIDTH,
                    align: Align::Right,
                },
            ],
        )
    }

    /// The closing summary block: total count, both spans, both raw arrays.
    pub open spec fn summary_v(self) -> Seq<LineV> {
        seq![
            LineV::Blank,
            LineV::Cells(
                seq![CellV { value: CellValueV::Text("========>:"@), width: 0, align: Align::Left }],
            ),
            LineV::Cells(
                seq![
                    CellV { value: CellValueV::Text("Total count: "@), width: 0, align: Align::Left },
                    CellV { value: CellValueV::Uint(self.total() as u128), width: 0, align: Align::Left },
                ],
            ),
            LineV::Cells(
                seq![
                    CellV { value: CellValueV::Text("Span in ns: "@), width: 0, align: Align::Left },
                    CellV { value: CellValueV::Uint(self.span_in_ns as u128), width: 0, align: Align::Left },
                ],
            ),
            LineV::Cells(
                seq![
                    CellV { value: CellValueV::Text("Span in us: "@), width: 0, align: Align::Left },
                    CellV { value: CellValueV::Uint(self.span_in_us as u128), width: 0, align: Align::Left },
                ],
            ),
            LineV::Cells(
                seq![
                    CellV {
                        value: CellValueV::Text("Percentiles in ns: "@),
                        width: 0,
                        align: Align::Left,
                    },
                    CellV {
                        value: CellValueV::UintList(self.ns_percentile@),
                        width: 0,
                        align: Align::Left,
                    },
                ],
            ),
            LineV::Cells(
                seq![
                    CellV {
                        value: CellValueV::Text("Percentiles in us: "@),
                        width: 0,
                        align: Align::Left,
                    },
                    CellV {
                        value: CellValueV::UintList(self.us_percentile@),
                        width: 0,
                        align: Align::Left,
                    },
                ],
            ),
            LineV::Blank,
        ]
    }

    /// The whole table: header, fine rows, coarse rows from the boundary on,
    /// then the summary block.
    pub open spec fn table_v(self) -> Seq<LineV> {
        seq![Self::header_v()] + Seq::new(
            self.span_in_ns as nat,
            |j: int| self.fine_row_v(j),
        ) + Seq::new(
            (self.span_in_us - self.boundary()) as nat,
            |k: int| self.coarse_row_v(self.boundary() + k),
        ) + self.summary_v()
    }

    /// The boundary, computed executably: the floor division the fine-to-
    /// coarse switch is specified by.
    /// The same floor division, computed in an integer wide enough that it
    /// needs no well-formedness: usable to check a histogram before it is
    /// trusted.
    pub fn coarse_start_wide(&self) -> (b: u128)
        ensures
            b as int == self.boundary(),
    {
        (self.span_in_ns as u128 * FINE_BUCKET_NS as u128) / (COARSE_BUCKET_NS as u128)
    }

    pub fn coarse_start(&self) -> (b: usize)
        requires
            self.wf(),
        ensures
            b as int == self.boundary(),
    {
        (self.span_in_ns * FINE_BUCKET_NS) / COARSE_BUCKET_NS
    }
}

/// Adding one element to the end adds its value to the sum.
pub proof fn lemma_sum_push(s: Seq<u64>, e: u64)
    ensures
        sum_u64(s.push(e)) == sum_u64(s) + e,
{
    assert(s.push(e).drop_last() =~= s);
    assert(s.push(e).last() == e);
}

/// An element-for-element copy of a counter vector.
pub fn clone_counts(v: &Vec<u64>) -> (r: Vec<u64>)
    ensures
        r@ == v@,
{
    let mut r: Vec<u64> = Vec::new();
    let mut i: usize = 0;
    while i < v.len()
        invariant
            0 <= i <= v@.len(),
            r@ == v@.take(i as int),
        decreases v@.len() - i,
    {
        r.push(v[i]);
        proof {
            assert(v@.take(i as int).push(v@[i as int]) =~= v@.take(i + 1));
        }
        i = i + 1;
    }
    proof {
        assert(v@.take(v@.len() as int) =~= v@);
    }
    r
}

/// A raw counter-list cell (written without padding).
pub fn uint_list_cell(v: Vec<u64>) -> (c: Cell)
    ensures
        c@ == (CellV { value: CellValueV::UintList(v@), width: 0, align: Align::Left }),
{
    Cell { value: CellValue::UintList(v), width: 0, align: Align::Left }
}

impl Print for TimeDistributionStats {
    open spec fn print_wf(&self) -> bool {
        self.wf()
    }

    /// The histogram table is untitled: its caller frames it itself.
    open spec fn title_v(&self) -> Seq<LineV> {
        Seq::empty()
    }

    open spec fn content_v(&self) -> Seq<LineV> {
        self.table_v()
    }

    fn print_title(&self) -> (r: Vec<ReportLine>) {
        let r: Vec<ReportLine> = Vec::new();
        proof {
            assert(lines_v(r@) =~= Seq::<LineV>::empty());
        }
        r
    }

    fn print_content(&self) -> (r: Vec<ReportLine>) {
        let total: u128 = total_of(&self.us_percentile);
        proof {
            lemma_sum_nonneg(self.us_percentile@);
        }
        let mut r: Vec<ReportLine> = Vec::new();

        let mut header: Vec<Cell> = Vec::new();
        header.push(text_cell("Time (ns)", COL_WIDTH));
        header.push(space_cell());
        header.push(text_cell_right("Count (%)", COL_WIDTH));
        header.push(space_cell());
        header.push(text_cell_right("Cuml. (%)", COL_WIDTH));
        let header_line = ReportLine::Cells(header);
        proof {
            assert(header_line@ =~~= Self::header_v());
        }
        r.push(header_line);

        let mut cum: u128 = 0;
        let mut j: usize = 0;
        proof {
            assert(self.ns_percentile@.take(0) =~= Seq::<u64>::empty());
            assert(lines_v(r@) =~~= seq![Self::header_v()] + Seq::new(
                0nat,
                |i: int| self.fine_row_v(i),
            ));
        }
        while j < self.span_in_ns
            invariant
                self.wf(),
                total == self.total(),
                0 <= j <= self.span_in_ns,
                cum == sum_u64(self.ns_percentile@.take(j as int)),
                lines_v(r@) == seq![Self::header_v()] + Seq::new(
                    j as nat,
                    |i: int| self.fine_row_v(i),
                ),
            decreases self.span_in_ns - j,
        {
            let ghost r_old = r@;
            proof {
                lemma_sum_take_succ(self.ns_percentile@, j as int);
                lemma_sum_nonneg(self.ns_percentile@.take(j as int));
                lemma_sum_bound(self.ns_percentile@.take(j as int));
                assert(j * u64::MAX + u64::MAX <= u128::MAX) by (nonlinear_arith)
                    requires
                        0 <= j <= usize::MAX,
                ;
            }
            let count = self.ns_percentile[j];
            cum = cum + count as u128;
            let label: u128 = (j as u128 + 1) * (FINE_BUCKET_NS as u128);
            let mut cells: Vec<Cell> = Vec::new();
            cells.push(uint_cell_left(label, COL_WIDTH));
            cells.push(space_cell());
            cells.push(percent_cell(Ratio { num: count as u128, den: total }, COL_WIDTH));
            cells.push(space_cell());
            cells.push(percent_cell(Ratio { num: cum, den: total }, COL_WIDTH));
            let line = ReportLine::Cells(cells);
            proof {
                assert(line@ =~~= self.fine_row_v(j as int));
            }
            r.push(line);
            proof {
                lemma_lines_v_push(r_old, line);
                assert(lines_v(r@) =~= seq![Self::header_v()] + Seq::new(
                    (j + 1) as nat,
                    |i: int| self.fine_row_v(i),
                ));
            }
            j = j + 1;
        }
        proof {
            assert(self.ns_percentile@.take(self.span_in_ns as int) =~= self.ns_percentile@);
        }

        let b = self.coarse_start();
        let mut k: usize = b;
        proof {
            assert(self.us_percentile@.subrange(b as int, b as int) =~= Seq::<u64>::empty());
        }
        while k < self.span_in_us
            invariant
                self.wf(),
                total == self.total(),
                b as int == self.boundary(),
                b <= k <= self.span_in_us,
                cum == sum_u64(self.ns_percentile@) + sum_u64(
                    self.us_percentile@.subrange(b as int, k as int),
                ),
                lines_v(r@) == seq![Self::header_v()] + Seq::new(
                    self.span_in_ns as nat,
                    |i: int| self.fine_row_v(i),
                ) + Seq::new((k - b) as nat, |i: int| self.coarse_row_v(b + i)),
            decreases self.span_in_us - k,
        {
            let ghost r_old = r@;
            proof {
                assert(self.us_percentile@.subrange(b as int, k as int).push(
                    self.us_percentile@[k as int],
                ) =~= self.us_percentile@.subrange(b as int, k + 1));
                lemma_sum_push(
                    self.us_percentile@.subrange(b as int, k as int),
                    self.us_percentile@[k as int],
                );
                lemma_sum_nonneg(self.ns_percentile@);
                lemma_sum_nonneg(self.us_percentile@.subrange(b as int, k as int));
                lemma_sum_bound(self.ns_percentile@);
                lemma_sum_bound(self.us_percentile@.subrange(b as int, k as int));
                assert((self.ns_percentile@.len() + (k - b)) * u64::MAX + u64::MAX <= u128::MAX)
                    by (nonlinear_arith)
                    requires
                        0 <= self.ns_percentile@.len() <= MAX_SPAN,
                        0 <= k - b <= MAX_SPAN,
                ;
                assert(self.ns_percentile@.len() * u64::MAX + (k - b) * u64::MAX == (
                self.ns_percentile@.len() + (k - b)) * u64::MAX) by (nonlinear_arith);
            }
            let count = self.us_percentile[k];
            cum = cum + count as u128;
            let label: u128 = (k as u128 + 1) * (COARSE_BUCKET_NS as u128);
            let mut cells: Vec<Cell> = Vec::new();
            cells.push(uint_cell_left(label, COL_WIDTH));
            cells.push(space_cell());
            cells.push(percent_cell(Ratio { num: count as u128, den: total }, COL_WIDTH));
            cells.push(space_cell());
            cells.push(percent_cell(Ratio { num: cum, den: total }, COL_WIDTH));
            let line = ReportLine::Cells(cells);
            proof {
                assert(line@ =~~= self.coarse_row_v(k as int));
            }
            r.push(line);
            proof {
                lemma_lines_v_push(r_old, line);
                assert(lines_v(r@) =~= seq![Self::header_v()] + Seq::new(
                    self.span_in_ns as nat,
                    |i: int| self.fine_row_v(i),
                ) + Seq::new((k + 1 - b) as nat, |i: int| self.coarse_row_v(b + i)));
            }
            k = k + 1;
        }

        let ghost rows_done = r@;
        r.push(ReportLine::Blank);
        let mut arrow: Vec<Cell> = Vec::new();
        arrow.push(text_cell("========>:", 0));
        r.push(ReportLine::Cells(arrow));
        let mut total_line: Vec<Cell> = Vec::new();
        total_line.push(text_cell("Total count: ", 0));
        total_line.push(uint_cell_left(total, 0));
        r.push(ReportLine::Cells(total_line));
        let mut span_ns_line: Vec<Cell> = Vec::new();
        span_ns_line.push(text_cell("Span in ns: ", 0));
        span_ns_line.push(uint_cell_left(self.span_in_ns as u128, 0));
        r.push(ReportLine::Cells(span_ns_line));
        let mut span_us_line: Vec<Cell> = Vec::new();
        span_us_line.push(text_cell("Span in us: ", 0));
        span_us_line.push(uint_cell_left(self.span_in_us as u128, 0));
        r.push(ReportLine::Cells(span_us_line));
        let mut pct_ns_line: Vec<Cell> = Vec::new();
        pct_ns_line.push(text_cell("Percentiles in ns: ", 0));
        pct_ns_line.push(uint_list_cell(clone_counts(&self.ns_percentile)));
        r.push(ReportLine::Cells(pct_ns_line));
        let mut pct_us_line: Vec<Cell> = Vec::new();
        pct_us_line.push(text_cell("Percentiles in us: ", 0));
        pct_us_line.push(uint_list_cell(clone_counts(&self.us_percentile)));
        r.push(ReportLine::Cells(pct_us_line));
        r.push(ReportLine::Blank);
        proof {
            assert(lines_v(r@) =~~= lines_v(rows_done) + self.summary_v());
            assert(lines_v(r@) =~~= self.table_v());
        }
        r
    }
}

/// When the fine buckets hold the same observations as the coarse buckets
/// below the boundary, the running cumulative after the last coarse bucket
/// equals the total count: the final cumulative percentage is exactly one
/// hundred percent.
pub proof fn lemma_cumulative_reaches_total(h: TimeDistributionStats)
    requires
        h.wf(),
        sum_u64(h.ns_percentile@) == sum_u64(h.us_percentile@.take(h.boundary())),
    ensures
        h.coarse_cum(h.span_in_us - 1) == h.total(),
{
    lemma_sum_split(h.us_percentile@, h.boundary());
}

} // verus!
