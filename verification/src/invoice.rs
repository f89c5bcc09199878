//! Invoices: hourly rates per project, the aggregation of billed entries into
//! invoice lines and totals, and the due date.

use crate::models::{Client, Entry, EntryView, Invoice, InvoiceSettings, InvoiceView, Project, ProjectView};
use crate::text::{
    contains_ignoring_case, has_substring, lowercase_text, push_text, push_zero_padded,
    zero_padded,
};
use crate::time::{
    MAX_SECS, MIN_SECS, SECS_PER_DAY, Timestamp, civil_date_text, civil_month, civil_year,
};
use vstd::prelude::*;

verus! {

/// The hourly rate of a project, in hundredths of a currency unit, and the
/// symbol of that currency.
#[derive(Debug)]
pub struct ProjectRate {
    pub project: String,
    pub rate: u64,
    pub currency: String,
}

/// The mathematical content of a [`ProjectRate`].
pub struct ProjectRateView {
    pub project: Seq<char>,
    pub rate: u64,
    pub currency: Seq<char>,
}

impl View for ProjectRate {
    type V = ProjectRateView;

    open spec fn view(&self) -> ProjectRateView {
        ProjectRateView { project: self.project@, rate: self.rate, currency: self.currency@ }
    }
}

impl DeepView for ProjectRate {
    type V = ProjectRateView;

    open spec fn deep_view(&self) -> ProjectRateView {
        self@
    }
}

impl Clone for ProjectRate {
    fn clone(&self) -> (res: Self)
        ensures
            res == *self,
    {
        ProjectRate {
            project: self.project.clone(),
            rate: self.rate,
            currency: self.currency.clone(),
        }
    }
}

/// The rate table of a list of projects: one row, in the same order, for each
/// project that has a rate. A project without a currency is billed in `$`.
pub open spec fn rates_of(projects: Seq<ProjectView>) -> Seq<ProjectRateView>
    decreases projects.len(),
{
    if projects.len() == 0 {
        Seq::empty()
    } else {
        let rest = rates_of(projects.drop_last());
        let p = projects.last();
        match p.rate {
            Some(rate) => rest.push(
                ProjectRateView {
                    project: p.name,
                    rate,
                    currency: match p.currency {
                        Some(c) => c,
                        None => "$"@,
                    },
                },
            ),
            None => rest,
        }
    }
}

/// The row of `table` that prices `project`: the last one that names it.
pub open spec fn rate_for(table: Seq<ProjectRateView>, project: Seq<char>) -> Option<
    ProjectRateView,
>
    decreases table.len(),
{
    if table.len() == 0 {
        None
    } else if table.last().project == project {
        Some(table.last())
    } else {
        rate_for(table.drop_last(), project)
    }
}

/// Builds the rate table of a list of projects.
pub fn rates_from_projects(projects: &Vec<Project>) -> (table: Vec<ProjectRate>)
    ensures
        table.deep_view() == rates_of(projects.deep_view()),
{
    let mut table: Vec<ProjectRate> = Vec::new();
    let mut i: usize = 0;
    proof {
        assert(projects.deep_view().subrange(0, 0) =~= Seq::<ProjectView>::empty());
        assert(table.deep_view() =~= Seq::<ProjectRateView>::empty());
    }
    while i < projects.len()
        invariant
            i <= projects.len(),
            table.deep_view() == rates_of(projects.deep_view().subrange(0, i as int)),
        decreases projects.len() - i,
    {
        let p = &projects[i];
        let ghost before = table.deep_view();
        proof {
            let upto = projects.deep_view().subrange(0, i + 1);
            assert(upto.drop_last() =~= projects.deep_view().subrange(0, i as int));
            assert(upto.last() == p@);
        }
        match p.rate {
            Some(rate) => {
                let currency = match &p.currency {
                    Some(c) => c.clone(),
                    None => "$".to_string(),
                };
                let row = ProjectRate { project: p.name.clone(), rate, currency };
                table.push(row);
                proof {
                    assert(table.deep_view() =~= before.push(row@));
                }
            },
            None => {},
        }
        i += 1;
    }
    proof {
        assert(projects.deep_view().subrange(0, projects.len() as int) =~= projects.deep_view());
    }
    table
}

/// Finds the row of `table` that prices `project`.
pub fn find_rate<'a>(table: &'a Vec<ProjectRate>, project: &String) -> (r: Option<&'a ProjectRate>)
    ensures
        r.deep_view() == rate_for(table.deep_view(), project@),
{
    let mut i: usize = table.len();
    proof {
        assert(table.deep_view().subrange(0, i as int) =~= table.deep_view());
    }
    while i > 0
        invariant
            i <= table.len(),
            rate_for(table.deep_view(), project@) == rate_for(
                table.deep_view().subrange(0, i as int),
                project@,
            ),
        decreases i,
    {
        let row = &table[i - 1];
        proof {
            let upto = table.deep_view().subrange(0, i as int);
            assert(upto.last() == row@);
            assert(upto.drop_last() =~= table.deep_view().subrange(0, i - 1));
        }
        if row.project == *project {
            return Some(row);
        }
        i -= 1;
    }
    None
}

/// The number of invoice units in one unit of currency: amounts are counted
/// in seconds of work times hundredths of a currency unit per hour times
/// ten-thousandths, so that hours, rates in hundredths and tax rates in
/// hundredths of a percent multiply without rounding.
pub const UNITS_PER_CURRENCY: u128 = 3_600_000_000;

/// The number of invoice units in one second of work at a rate of one
/// hundredth per hour.
pub const UNITS_PER_RATED_SECOND: u128 = 10_000;

/// The longest time between two instants, in seconds.
pub const MAX_SPAN_SECS: u128 = 16_544_868_105_599;

/// Whole seconds worked on `project` in the entries that have ended.
pub open spec fn project_seconds(entries: Seq<EntryView>, project: Seq<char>) -> int
    decreases entries.len(),
{
    if entries.len() == 0 {
        0
    } else {
        let e = entries.last();
        project_seconds(entries.drop_last(), project) + (if e.project == project
            && e.end.is_some() {
            e.seconds().unwrap()
        } else {
            0
        })
    }
}

/// The projects that the entries name, each once, in the order in which they
/// first occur.
pub open spec fn distinct_projects(entries: Seq<EntryView>) -> Seq<Seq<char>>
    decreases entries.len(),
{
    if entries.len() == 0 {
        Seq::empty()
    } else {
        let rest = distinct_projects(entries.drop_last());
        if rest.contains(entries.last().project) {
            rest
        } else {
            rest.push(entries.last().project)
        }
    }
}

/// Every entry is valid: none ends before it starts.
pub open spec fn all_valid(entries: Seq<EntryView>) -> bool {
    forall|i: int| 0 <= i < entries.len() ==> (#[trigger] entries[i]).wf()
}

/// The identity of the first entry that ends before it starts.
pub open spec fn first_invalid(entries: Seq<EntryView>) -> Option<i64>
    decreases entries.len(),
{
    if entries.len() == 0 {
        None
    } else {
        match first_invalid(entries.drop_last()) {
            Some(id) => Some(id),
            None => if entries.last().wf() {
                None
            } else {
                Some(entries.last().id)
            },
        }
    }
}

/// One line of an invoice: a project, the time worked on it, and its price
/// where the project has a rate.
#[derive(Debug)]
pub struct InvoiceLine {
    pub project: String,
    /// Whole seconds worked.
    pub seconds: u128,
    pub rate: Option<ProjectRate>,
    /// The price of the line in invoice units; `None` without a rate.
    pub cost: Option<u128>,
}

/// The mathematical content of an [`InvoiceLine`].
pub struct InvoiceLineView {
    pub project: Seq<char>,
    pub seconds: int,
    pub rate: Option<ProjectRateView>,
    pub cost: Option<int>,
}

impl View for InvoiceLine {
    type V = InvoiceLineView;

    open spec fn view(&self) -> InvoiceLineView {
        InvoiceLineView {
            project: self.project@,
            seconds: self.seconds as int,
            rate: self.rate.deep_view(),
            cost: match self.cost {
                Some(c) => Some(c as int),
                None => None,
            },
        }
    }
}

impl DeepView for InvoiceLine {
    type V = InvoiceLineView;

    open spec fn deep_view(&self) -> InvoiceLineView {
        self@
    }
}

/// The invoice line of `project`: the seconds worked on it, the rate that the
/// table gives it, and the price `seconds * rate` in invoice units where it
/// has a rate. A rate of zero prices the line at zero.
pub open spec fn line_of(
    entries: Seq<EntryView>,
    rates: Seq<ProjectRateView>,
    project: Seq<char>,
) -> InvoiceLineView {
    let seconds = project_seconds(entries, project);
    let rate = rate_for(rates, project);
    InvoiceLineView {
        project,
        seconds,
        rate,
        cost: match rate {
            Some(r) => Some(seconds * r.rate * UNITS_PER_RATED_SECOND),
            None => None,
        },
    }
}

/// The sum over `projects` of seconds worked times hourly rate, for the
/// projects that have a rate.
pub open spec fn rated_seconds(
    entries: Seq<EntryView>,
    rates: Seq<ProjectRateView>,
    projects: Seq<Seq<char>>,
) -> int
    decreases projects.len(),
{
    if projects.len() == 0 {
        0
    } else {
        rated_seconds(entries, rates, projects.drop_last()) + (match rate_for(
            rates,
            projects.last(),
        ) {
            Some(r) => project_seconds(entries, projects.last()) * r.rate,
            None => 0,
        })
    }
}

/// The invoice lines of the entries: one per project, in the order in which
/// the projects first occur.
pub open spec fn lines_of(entries: Seq<EntryView>, rates: Seq<ProjectRateView>) -> Seq<
    InvoiceLineView,
> {
    Seq::new(
        distinct_projects(entries).len(),
        |k: int| line_of(entries, rates, distinct_projects(entries)[k]),
    )
}

/// The subtotal in invoice units: the sum of the prices of all lines.
pub open spec fn subtotal_units(entries: Seq<EntryView>, rates: Seq<ProjectRateView>) -> int {
    rated_seconds(entries, rates, distinct_projects(entries)) * UNITS_PER_RATED_SECOND
}

/// The tax in invoice units: the subtotal times the tax rate, which is in
/// hundredths of a percent.
pub open spec fn tax_units(
    entries: Seq<EntryView>,
    rates: Seq<ProjectRateView>,
    tax_rate: u32,
) -> int {
    rated_seconds(entries, rates, distinct_projects(entries)) * tax_rate
}

/// The total in invoice units: subtotal plus tax.
pub open spec fn total_units(
    entries: Seq<EntryView>,
    rates: Seq<ProjectRateView>,
    tax_rate: u32,
) -> int {
    subtotal_units(entries, rates) + tax_units(entries, rates, tax_rate)
}

/// The lines and totals of an invoice. Amounts are in invoice units,
/// [`UNITS_PER_CURRENCY`] to the currency unit.
#[derive(Debug)]
pub struct InvoiceTotals {
    pub lines: Vec<InvoiceLine>,
    pub subtotal: u128,
    pub tax_amount: u128,
    pub total: u128,
}

/// The mathematical content of [`InvoiceTotals`].
pub struct InvoiceTotalsView {
    pub lines: Seq<InvoiceLineView>,
    pub subtotal: int,
    pub tax_amount: int,
    pub total: int,
}

impl View for InvoiceTotals {
    type V = InvoiceTotalsView;

    open spec fn view(&self) -> InvoiceTotalsView {
        InvoiceTotalsView {
            lines: self.lines.deep_view(),
            subtotal: self.subtotal as int,
            tax_amount: self.tax_amount as int,
            total: self.total as int,
        }
    }
}

/// The lines and totals of an invoice over `entries`, priced by `rates` and
/// taxed at `tax_rate` hundredths of a percent.
pub open spec fn totals_of(
    entries: Seq<EntryView>,
    rates: Seq<ProjectRateView>,
    tax_rate: u32,
) -> InvoiceTotalsView {
    InvoiceTotalsView {
        lines: lines_of(entries, rates),
        subtotal: subtotal_units(entries, rates),
        tax_amount: tax_units(entries, rates, tax_rate),
        total: total_units(entries, rates, tax_rate),
    }
}

/// The sum of the prices of the lines that have one.
pub open spec fn cost_sum(lines: Seq<InvoiceLineView>) -> int
    decreases lines.len(),
{
    if lines.len() == 0 {
        0
    } else {
        cost_sum(lines.drop_last()) + (match lines.last().cost {
            Some(cost) => cost,
            None => 0,
        })
    }
}

/// The invoice lines of the given projects, in their order.
pub open spec fn lines_for(
    entries: Seq<EntryView>,
    rates: Seq<ProjectRateView>,
    projects: Seq<Seq<char>>,
) -> Seq<InvoiceLineView> {
    Seq::new(projects.len(), |k: int| line_of(entries, rates, projects[k]))
}

/// The prices of the lines of any projects add up to the seconds times rate
/// of those projects, in invoice units.
pub proof fn lemma_cost_sum(
    entries: Seq<EntryView>,
    rates: Seq<ProjectRateView>,
    projects: Seq<Seq<char>>,
)
    ensures
        cost_sum(lines_for(entries, rates, projects)) == rated_seconds(entries, rates, projects)
            * UNITS_PER_RATED_SECOND,
    decreases projects.len(),
{
    if projects.len() > 0 {
        lemma_cost_sum(entries, rates, projects.drop_last());
        assert(lines_for(entries, rates, projects).drop_last() =~= lines_for(
            entries,
            rates,
            projects.drop_last(),
        ));
        let last = projects.last();
        assert(lines_for(entries, rates, projects).last() == line_of(entries, rates, last));
        match rate_for(rates, last) {
            Some(r) => {
                let s = project_seconds(entries, last);
                let q = r.rate as int;
                let rest = rated_seconds(entries, rates, projects.drop_last());
                assert((rest + s * q) * 10_000 == rest * 10_000 + s * q * 10_000)
                    by (nonlinear_arith);
            },
            None => {},
        }
    }
}

/// The subtotal of an invoice is the sum of the prices of its lines, the
/// tax is the subtotal times the tax rate in hundredths of a percent, and
/// the total is subtotal plus tax.
pub proof fn law_totals_add_up(
    entries: Seq<EntryView>,
    rates: Seq<ProjectRateView>,
    tax_rate: u32,
)
    ensures
        totals_of(entries, rates, tax_rate).subtotal == cost_sum(
            totals_of(entries, rates, tax_rate).lines,
        ),
        totals_of(entries, rates, tax_rate).tax_amount * 10_000 == totals_of(
            entries,
            rates,
            tax_rate,
        ).subtotal * tax_rate,
        totals_of(entries, rates, tax_rate).total == totals_of(entries, rates, tax_rate).subtotal
            + totals_of(entries, rates, tax_rate).tax_amount,
{
    lemma_cost_sum(entries, rates, distinct_projects(entries));
    assert(lines_of(entries, rates) =~= lines_for(entries, rates, distinct_projects(entries)));
    let base = rated_seconds(entries, rates, distinct_projects(entries));
    let t = tax_rate as int;
    assert(base * t * 10_000 == base * 10_000 * t) by (nonlinear_arith);
}

/// Every project that an entry names has exactly one line on the invoice,
/// whether it has a rate or not, and every line belongs to a project that
/// some entry names.
pub proof fn law_every_project_has_one_line(entries: Seq<EntryView>)
    ensures
        forall|i: int|
            0 <= i < entries.len() ==> distinct_projects(entries).contains(
                #[trigger] entries[i].project,
            ),
        distinct_projects(entries).no_duplicates(),
        forall|k: int|
            0 <= k < distinct_projects(entries).len() ==> exists|i: int|
                0 <= i < entries.len() && entries[i].project == #[trigger] distinct_projects(
                    entries,
                )[k],
    decreases entries.len(),
{
    if entries.len() > 0 {
        let rest = entries.drop_last();
        let before = distinct_projects(rest);
        let now = distinct_projects(entries);
        let last = entries.last();
        law_every_project_has_one_line(rest);
        assert forall|i: int| 0 <= i < entries.len() implies now.contains(
            #[trigger] entries[i].project,
        ) by {
            if i < rest.len() {
                assert(rest[i] == entries[i]);
                let k = choose|k: int| 0 <= k < before.len() && before[k] == rest[i].project;
                assert(now[k] == before[k]);
            } else if before.contains(last.project) {
            } else {
                assert(now[now.len() - 1] == last.project);
            }
        }
        assert forall|k: int| 0 <= k < now.len() implies exists|i: int|
            0 <= i < entries.len() && entries[i].project == #[trigger] now[k] by {
            if k < before.len() {
                assert(now[k] == before[k]);
                let i = choose|i: int| 0 <= i < rest.len() && rest[i].project == before[k];
                assert(entries[i] == rest[i]);
            } else {
                assert(entries[entries.len() - 1].project == now[k]);
            }
        }
        if !before.contains(last.project) {
            assert forall|a: int, b: int| 0 <= a < now.len() && 0 <= b < now.len() && a
                != b implies now[a] != now[b] by {
                if a < before.len() && b < before.len() {
                    assert(now[a] == before[a] && now[b] == before[b]);
                } else if a < before.len() {
                    assert(before[a] == now[a]);
                    assert(before.contains(now[a]));
                } else {
                    assert(before[b] == now[b]);
                    assert(before.contains(now[b]));
                }
            }
        }
    }
}

/// Why no invoice could be computed.
#[derive(Debug, Clone, Copy, PartialEq, Eq, Structural)]
pub enum InvoiceError {
    /// The entry with this identity ends before it starts.
    EndsBeforeStart(i64),
    /// The total does not fit in 128 bits.
    Overflow,
}

impl InvoiceError {
    /// The error in words.
    pub fn message(&self) -> (r: String)
        ensures
            r@ == (match *self {
                InvoiceError::EndsBeforeStart(_) => "an entry ends before it starts"@,
                InvoiceError::Overflow => "the invoice total is too large"@,
            }),
    {
        match self {
            InvoiceError::EndsBeforeStart(_) => "an entry ends before it starts".to_string(),
            InvoiceError::Overflow => "the invoice total is too large".to_string(),
        }
    }
}

/// An entry that has ended no earlier than it started was worked on for a
/// whole number of seconds that is not negative.
pub proof fn lemma_valid_entry_seconds(e: EntryView)
    requires
        e.wf(),
        e.end.is_some(),
    ensures
        0 <= e.seconds().unwrap() <= MAX_SPAN_SECS,
{
    let d = e.end.unwrap().total_nanos() - e.start.total_nanos();
    assert(d >= 0);
    assert(d <= (MAX_SECS - MIN_SECS) * 1_000_000_000 + 999_999_999);
}

/// The seconds worked on a project in valid entries are bounded by the number
/// of entries.
pub proof fn lemma_project_seconds_bounds(entries: Seq<EntryView>, project: Seq<char>)
    requires
        all_valid(entries),
    ensures
        0 <= project_seconds(entries, project) <= entries.len() * MAX_SPAN_SECS,
    decreases entries.len(),
{
    if entries.len() > 0 {
        let rest = entries.drop_last();
        assert(all_valid(rest)) by {
            assert forall|i: int| 0 <= i < rest.len() implies (#[trigger] rest[i]).wf() by {
                assert(rest[i] == entries[i]);
            }
        }
        lemma_project_seconds_bounds(rest, project);
        let e = entries.last();
        assert(e == entries[entries.len() - 1]);
        if e.end.is_some() {
            lemma_valid_entry_seconds(e);
        }
    }
}

/// The sum of seconds times rate over any projects of valid entries is not
/// negative, and grows with every project.
pub proof fn lemma_rated_seconds_monotone(
    entries: Seq<EntryView>,
    rates: Seq<ProjectRateView>,
    projects: Seq<Seq<char>>,
    k: int,
)
    requires
        all_valid(entries),
        0 <= k <= projects.len(),
    ensures
        0 <= rated_seconds(entries, rates, projects.subrange(0, k)) <= rated_seconds(
            entries,
            rates,
            projects,
        ),
    decreases projects.len(),
{
    if projects.len() == 0 {
        assert(projects.subrange(0, k) =~= projects);
    } else if k == projects.len() {
        assert(projects.subrange(0, k) =~= projects);
        lemma_rated_seconds_monotone(entries, rates, projects.drop_last(), 0);
        lemma_project_seconds_bounds(entries, projects.last());
        lemma_term_nonnegative(entries, rates, projects.last());
        assert(projects.drop_last().subrange(0, 0) =~= Seq::<Seq<char>>::empty());
    } else {
        lemma_rated_seconds_monotone(entries, rates, projects.drop_last(), k);
        assert(projects.drop_last().subrange(0, k) =~= projects.subrange(0, k));
        lemma_term_nonnegative(entries, rates, projects.last());
    }
}

/// Seconds times rate is not negative for a project of valid entries.
pub proof fn lemma_term_nonnegative(
    entries: Seq<EntryView>,
    rates: Seq<ProjectRateView>,
    project: Seq<char>,
)
    requires
        all_valid(entries),
    ensures
        match rate_for(rates, project) {
            Some(r) => project_seconds(entries, project) * r.rate >= 0,
            None => true,
        },
{
    lemma_project_seconds_bounds(entries, project);
    match rate_for(rates, project) {
        Some(r) => {
            let s = project_seconds(entries, project);
            let q = r.rate as int;
            assert(s * q >= 0) by (nonlinear_arith)
                requires
                    s >= 0,
                    q >= 0,
            ;
        },
        None => {},
    }
}

/// Whether the list holds the name.
pub fn contains_name(names: &Vec<String>, name: &String) -> (r: bool)
    ensures
        r == names.deep_view().contains(name@),
{
    let mut i: usize = 0;
    while i < names.len()
        invariant
            i <= names.len(),
            forall|k: int| 0 <= k < i ==> names.deep_view()[k] != name@,
        decreases names.len() - i,
    {
        if names[i] == *name {
            proof {
                assert(names.deep_view()[i as int] == name@);
            }
            return true;
        }
        i += 1;
    }
    false
}

/// The projects that the entries name, each once, in the order in which they
/// first occur.
pub fn project_names(entries: &Vec<Entry>) -> (names: Vec<String>)
    ensures
        names.deep_view() == distinct_projects(entries.deep_view()),
{
    let mut names: Vec<String> = Vec::new();
    let mut i: usize = 0;
    proof {
        assert(entries.deep_view().subrange(0, 0) =~= Seq::<EntryView>::empty());
        assert(names.deep_view() =~= Seq::<Seq<char>>::empty());
    }
    while i < entries.len()
        invariant
            i <= entries.len(),
            names.deep_view() == distinct_projects(entries.deep_view().subrange(0, i as int)),
        decreases entries.len() - i,
    {
        let ghost before = names.deep_view();
        proof {
            let upto = entries.deep_view().subrange(0, i + 1);
            assert(upto.drop_last() =~= entries.deep_view().subrange(0, i as int));
            assert(upto.last() == entries[i as int]@);
        }
        if !contains_name(&names, &entries[i].project) {
            let name = entries[i].project.clone();
            names.push(name);
            proof {
                assert(names.deep_view() =~= before.push(name@));
            }
        }
        i += 1;
    }
    proof {
        assert(entries.deep_view().subrange(0, entries.len() as int) =~= entries.deep_view());
    }
    names
}

/// The identity of the first entry that ends before it starts, if any does.
pub fn find_invalid(entries: &Vec<Entry>) -> (r: Option<i64>)
    ensures
        r == first_invalid(entries.deep_view()),
        r.is_none() <==> all_valid(entries.deep_view()),
{
    let mut i: usize = 0;
    proof {
        assert(entries.deep_view().subrange(0, 0) =~= Seq::<EntryView>::empty());
    }
    while i < entries.len()
        invariant
            i <= entries.len(),
            first_invalid(entries.deep_view().subrange(0, i as int)).is_none(),
            all_valid(entries.deep_view().subrange(0, i as int)),
        decreases entries.len() - i,
    {
        let ghost upto = entries.deep_view().subrange(0, i + 1);
        proof {
            assert(upto.drop_last() =~= entries.deep_view().subrange(0, i as int));
            assert(upto.last() == entries[i as int]@);
        }
        if !entries[i].ends_after_start() {
            proof {
                lemma_first_invalid_stays(entries.deep_view(), i + 1);
                assert(!entries.deep_view()[i as int].wf());
            }
            return Some(entries[i].id);
        }
        proof {
            assert forall|k: int| 0 <= k < upto.len() implies (#[trigger] upto[k]).wf() by {
                if k < i {
                    assert(upto[k] == entries.deep_view().subrange(0, i as int)[k]);
                }
            }
        }
        i += 1;
    }
    proof {
        assert(entries.deep_view().subrange(0, entries.len() as int) =~= entries.deep_view());
    }
    None
}

/// Once a prefix of the entries holds an invalid one, the first invalid entry
/// of the whole list is that of the prefix.
pub proof fn lemma_first_invalid_stays(entries: Seq<EntryView>, k: int)
    requires
        0 <= k <= entries.len(),
        first_invalid(entries.subrange(0, k)).is_some(),
    ensures
        first_invalid(entries) == first_invalid(entries.subrange(0, k)),
    decreases entries.len(),
{
    if k == entries.len() {
        assert(entries.subrange(0, k) =~= entries);
    } else {
        assert(entries.drop_last().subrange(0, k) =~= entries.subrange(0, k));
        lemma_first_invalid_stays(entries.drop_last(), k);
    }
}

/// Whole seconds worked on `project` in the entries that have ended.
pub fn total_seconds(entries: &Vec<Entry>, project: &String) -> (r: u128)
    requires
        all_valid(entries.deep_view()),
    ensures
        r == project_seconds(entries.deep_view(), project@),
{
    let mut acc: u128 = 0;
    let mut i: usize = 0;
    proof {
        assert(entries.deep_view().subrange(0, 0) =~= Seq::<EntryView>::empty());
    }
    while i < entries.len()
        invariant
            i <= entries.len(),
            all_valid(entries.deep_view()),
            acc == project_seconds(entries.deep_view().subrange(0, i as int), project@),
            acc <= i * MAX_SPAN_SECS,
        decreases entries.len() - i,
    {
        proof {
            let upto = entries.deep_view().subrange(0, i + 1);
            assert(upto.drop_last() =~= entries.deep_view().subrange(0, i as int));
            assert(upto.last() == entries[i as int]@);
            assert(entries.deep_view()[i as int].wf());
            if entries[i as int]@.end.is_some() {
                lemma_valid_entry_seconds(entries[i as int]@);
            }
        }
        if entries[i].project == *project {
            match entries[i].seconds() {
                Some(secs) => {
                    acc = acc + secs as u128;
                },
                None => {},
            }
        }
        i += 1;
    }
    proof {
        assert(entries.deep_view().subrange(0, entries.len() as int) =~= entries.deep_view());
    }
    acc
}

/// A copy of the rate that the table gives the project.
pub fn rate_of_project(rates: &Vec<ProjectRate>, project: &String) -> (r: Option<ProjectRate>)
    ensures
        r.deep_view() == rate_for(rates.deep_view(), project@),
{
    match find_rate(rates, project) {
        Some(rate) => Some(rate.clone()),
        None => None,
    }
}

/// The total of valid entries is at least the subtotal, the tax, and the sum
/// of seconds times rate over any leading part of the projects.
pub proof fn lemma_total_dominates(
    entries: Seq<EntryView>,
    rates: Seq<ProjectRateView>,
    tax_rate: u32,
    k: int,
)
    requires
        all_valid(entries),
        0 <= k <= distinct_projects(entries).len(),
    ensures
        0 <= rated_seconds(entries, rates, distinct_projects(entries).subrange(0, k)),
        rated_seconds(entries, rates, distinct_projects(entries).subrange(0, k))
            * UNITS_PER_RATED_SECOND <= subtotal_units(entries, rates),
        0 <= subtotal_units(entries, rates) <= total_units(entries, rates, tax_rate),
        0 <= tax_units(entries, rates, tax_rate) <= total_units(entries, rates, tax_rate),
        rated_seconds(entries, rates, distinct_projects(entries).subrange(0, k)) <= total_units(
            entries,
            rates,
            tax_rate,
        ),
{
    let projects = distinct_projects(entries);
    lemma_rated_seconds_monotone(entries, rates, projects, k);
    let part = rated_seconds(entries, rates, projects.subrange(0, k));
    let full = rated_seconds(entries, rates, projects);
    let t = tax_rate as int;
    assert(part * 10_000 <= full * 10_000);
    assert(full * t >= 0) by (nonlinear_arith)
        requires
            full >= 0,
            t >= 0,
    ;
}

/// Groups the entries by project and prices them: one line per project in the
/// order of first occurrence, with the seconds worked and, for a project with
/// a rate, its price; the subtotal over the priced lines; the tax at
/// `tax_rate` hundredths of a percent; and the total.
///
/// Entries that still run count for nothing but give their project a line.
/// An entry that ends before it starts is refused, and so is a total that
/// does not fit in 128 bits.
pub fn aggregate(entries: &Vec<Entry>, rates: &Vec<ProjectRate>, tax_rate: u32) -> (r: Result<
    InvoiceTotals,
    InvoiceError,
>)
    ensures
        r.is_ok() <==> all_valid(entries.deep_view()) && total_units(
            entries.deep_view(),
            rates.deep_view(),
            tax_rate,
        ) <= u128::MAX,
        match r {
            Ok(totals) => totals@ == totals_of(entries.deep_view(), rates.deep_view(), tax_rate),
            Err(InvoiceError::EndsBeforeStart(id)) => !all_valid(entries.deep_view())
                && first_invalid(entries.deep_view()) == Some(id),
            Err(InvoiceError::Overflow) => all_valid(entries.deep_view()),
        },
{
    match find_invalid(entries) {
        Some(id) => {
            return Err(InvoiceError::EndsBeforeStart(id));
        },
        None => {},
    }
    let ghost e = entries.deep_view();
    let ghost t = rates.deep_view();
    let names = project_names(entries);
    let mut lines: Vec<InvoiceLine> = Vec::new();
    let mut base: u128 = 0;
    let mut k: usize = 0;
    proof {
        assert(names.deep_view().subrange(0, 0) =~= Seq::<Seq<char>>::empty());
    }
    while k < names.len()
        invariant
            k <= names.len(),
            e == entries.deep_view(),
            t == rates.deep_view(),
            all_valid(e),
            names.deep_view() == distinct_projects(e),
            lines.len() == k,
            forall|j: int| 0 <= j < k ==> (#[trigger] lines[j])@ == line_of(e, t, names.deep_view()[j]),
            base == rated_seconds(e, t, names.deep_view().subrange(0, k as int)),
        decreases names.len() - k,
    {
        let name = &names[k];
        let seconds = total_seconds(entries, name);
        let rate = rate_of_project(rates, name);
        let ghost upto = names.deep_view().subrange(0, k + 1);
        proof {
            assert(upto.drop_last() =~= names.deep_view().subrange(0, k as int));
            assert(upto.last() == name@);
            lemma_total_dominates(e, t, tax_rate, k + 1);
            lemma_total_dominates(e, t, tax_rate, k as int);
            lemma_term_nonnegative(e, t, name@);
        }
        let cost: Option<u128> = match &rate {
            Some(r) => {
                let priced = match seconds.checked_mul(r.rate as u128) {
                    Some(v) => v,
                    None => {
                        return Err(InvoiceError::Overflow);
                    },
                };
                let sum = match base.checked_add(priced) {
                    Some(v) => v,
                    None => {
                        return Err(InvoiceError::Overflow);
                    },
                };
                let units = match priced.checked_mul(UNITS_PER_RATED_SECOND) {
                    Some(v) => v,
                    None => {
                        proof {
                            assert(rated_seconds(e, t, upto) >= priced);
                        }
                        return Err(InvoiceError::Overflow);
                    },
                };
                base = sum;
                Some(units)
            },
            None => None,
        };
        let line = InvoiceLine { project: name.clone(), seconds, rate, cost };
        proof {
            assert(line@ == line_of(e, t, name@));
        }
        lines.push(line);
        k += 1;
    }
    proof {
        assert(names.deep_view().subrange(0, names.len() as int) =~= names.deep_view());
        lemma_total_dominates(e, t, tax_rate, 0);
    }
    let subtotal = match base.checked_mul(UNITS_PER_RATED_SECOND) {
        Some(v) => v,
        None => {
            return Err(InvoiceError::Overflow);
        },
    };
    let tax_amount = match base.checked_mul(tax_rate as u128) {
        Some(v) => v,
        None => {
            return Err(InvoiceError::Overflow);
        },
    };
    let total = match subtotal.checked_add(tax_amount) {
        Some(v) => v,
        None => {
            return Err(InvoiceError::Overflow);
        },
    };
    proof {
        assert(lines.deep_view() =~= lines_of(e, t));
    }
    Ok(InvoiceTotals { lines, subtotal, tax_amount, total })
}

impl InvoiceTotalsView {
    /// Some line is priced: its project has a rate, even one of zero.
    pub open spec fn has_rates(self) -> bool {
        exists|k: int| 0 <= k < self.lines.len() && (#[trigger] self.lines[k]).rate.is_some()
    }

    /// The seconds worked over all lines.
    pub open spec fn seconds_upto(self, k: int) -> int
        decreases k,
    {
        if k <= 0 {
            0
        } else {
            self.seconds_upto(k - 1) + self.lines[k - 1].seconds
        }
    }
}

impl InvoiceTotals {
    /// Whether any line is priced. A rate of zero prices its line.
    pub fn has_rates(&self) -> (r: bool)
        ensures
            r == self@.has_rates(),
    {
        let mut k: usize = 0;
        while k < self.lines.len()
            invariant
                k <= self.lines.len(),
                forall|j: int| 0 <= j < k ==> (#[trigger] self@.lines[j]).rate.is_none(),
            decreases self.lines.len() - k,
        {
            if self.lines[k].rate.is_some() {
                proof {
                    assert(self@.lines[k as int].rate.is_some());
                }
                return true;
            }
            k += 1;
        }
        false
    }

    /// The seconds worked over all lines, or `None` where they do not fit in
    /// 128 bits.
    pub fn total_seconds(&self) -> (r: Option<u128>)
        ensures
            r.is_some() <==> self@.seconds_upto(self@.lines.len() as int) <= u128::MAX,
            r.is_some() ==> r.unwrap() == self@.seconds_upto(self@.lines.len() as int),
    {
        let mut acc: u128 = 0;
        let mut k: usize = 0;
        while k < self.lines.len()
            invariant
                k <= self.lines.len(),
                acc == self@.seconds_upto(k as int),
            decreases self.lines.len() - k,
        {
            proof {
                self.lemma_seconds_grow(k as int + 1, self@.lines.len() as int);
            }
            acc = match acc.checked_add(self.lines[k].seconds) {
                Some(v) => v,
                None => {
                    return None;
                },
            };
            k += 1;
        }
        Some(acc)
    }

    /// The seconds over the first lines do not exceed those over more lines.
    pub proof fn lemma_seconds_grow(&self, j: int, k: int)
        requires
            0 <= j <= k <= self@.lines.len(),
        ensures
            0 <= self@.seconds_upto(j) <= self@.seconds_upto(k),
        decreases k,
    {
        if j < k {
            self.lemma_seconds_grow(j, k - 1);
        } else if k > 0 {
            self.lemma_seconds_grow(j - 1, k - 1);
        }
    }
}

/// The days that payment terms allow: 30, 15 or 60 for terms that contain
/// `net 30`, `net 15` or `net 60` in any letter case, the first of these that
/// occurs deciding; none for any other terms, which are due on receipt.
pub open spec fn payment_term_days(terms: Seq<char>) -> int {
    let lowered = lowercase_text(terms);
    if has_substring(lowered, "net 30"@) {
        30
    } else if has_substring(lowered, "net 15"@) {
        15
    } else if has_substring(lowered, "net 60"@) {
        60
    } else {
        0
    }
}

/// The instant at which an invoice issued at `issued` is due: as many days
/// later as the terms allow, or `issued` itself where that day cannot be
/// represented.
pub open spec fn due_instant(issued: Timestamp, terms: Seq<char>) -> Timestamp {
    match issued.spec_checked_add_days(payment_term_days(terms)) {
        Some(due) => due,
        None => issued,
    }
}

/// The days that payment terms allow.
pub fn payment_days(terms: &str) -> (days: u32)
    ensures
        days == payment_term_days(terms@),
{
    if contains_ignoring_case(terms, "net 30") {
        30
    } else if contains_ignoring_case(terms, "net 15") {
        15
    } else if contains_ignoring_case(terms, "net 60") {
        60
    } else {
        0
    }
}

/// The instant at which an invoice issued at `issued` under `terms` is due.
pub fn due_date(issued: &Timestamp, terms: &str) -> (due: Timestamp)
    ensures
        due == due_instant(*issued, terms@),
{
    match issued.checked_add_days(payment_days(terms)) {
        Some(due) => due,
        None => *issued,
    }
}

/// The due date, as `YYYY-MM-DD`, of an invoice issued at `issued` under
/// `terms`.
pub fn calculate_due_date(issued: &Timestamp, terms: &str) -> (text: String)
    ensures
        text@ == civil_date_text(due_instant(*issued, terms@).spec_secs()),
{
    due_date(issued, terms).date_text()
}

/// Terms that contain `net 30` in any letter case make an invoice due thirty
/// days after it was issued, to the second, where that day is representable.
/// Terms that contain none of `net 30`, `net 15` and `net 60` make it due at
/// the instant it was issued. In general an invoice is due as many days
/// after it was issued as [`payment_term_days`] gives.
pub proof fn law_due_date(issued: Timestamp, terms: Seq<char>)
    requires
        issued.wf(),
    ensures
        has_substring(lowercase_text(terms), "net 30"@) ==> payment_term_days(terms) == 30,
        !has_substring(lowercase_text(terms), "net 30"@) && !has_substring(
            lowercase_text(terms),
            "net 15"@,
        ) && !has_substring(lowercase_text(terms), "net 60"@) ==> payment_term_days(terms) == 0,
        payment_term_days(terms) == 0 ==> due_instant(issued, terms) == issued,
        issued.spec_secs() + payment_term_days(terms) * SECS_PER_DAY <= MAX_SECS ==> {
            &&& due_instant(issued, terms).spec_secs() == issued.spec_secs() + payment_term_days(
                terms,
            ) * SECS_PER_DAY
            &&& due_instant(issued, terms).spec_nanos() == issued.spec_nanos()
        },
{
    let days = payment_term_days(terms);
    if days == 0 {
        issued.lemma_at_parts();
    }
    if issued.spec_secs() + days * SECS_PER_DAY <= MAX_SECS {
        Timestamp::lemma_at(issued.spec_secs() + days * SECS_PER_DAY, issued.spec_nanos());
    }
}

/// The path of the file that holds the invoice with the given number:
/// `invoice_NNNN.pdf` in the directory, the number filled with zeros to four
/// digits.
pub open spec fn invoice_path(dir: Seq<char>, number: i64) -> Seq<char> {
    dir + "/invoice_"@ + zero_padded(number as int, 4) + ".pdf"@
}

/// The path of the file that holds the invoice with the given number.
pub fn invoice_file_path(dir: &str, number: i64) -> (path: String)
    ensures
        path@ == invoice_path(dir@, number),
{
    let mut path = dir.to_string();
    push_text(&mut path, "/invoice_");
    push_zero_padded(&mut path, number, 4);
    push_text(&mut path, ".pdf");
    path
}

/// The title of the invoice with the given number: `Invoice #NNNN`.
pub open spec fn invoice_title(number: i64) -> Seq<char> {
    "Invoice #"@ + zero_padded(number as int, 4)
}

/// The title of the invoice with the given number.
pub fn format_invoice_title(number: i64) -> (title: String)
    ensures
        title@ == invoice_title(number),
{
    let mut title = "Invoice #".to_string();
    push_zero_padded(&mut title, number, 4);
    title
}

/// What an invoice is computed from.
pub struct InvoiceParams<'a> {
    /// The billed entries of the period.
    pub entries: &'a Vec<Entry>,
    pub project_rates: &'a Vec<ProjectRate>,
    pub year: i32,
    pub month: u32,
    pub invoice_number: i64,
    pub settings: &'a InvoiceSettings,
    pub client: Option<&'a Client>,
    /// The tax rate in hundredths of a percent.
    pub tax_rate: u32,
}

/// What generating an invoice results in: where it is written, its dates, and
/// its amounts in invoice units.
#[derive(Debug)]
pub struct InvoiceResult {
    pub file_path: String,
    pub date_issued: String,
    pub due_date: String,
    pub subtotal: u128,
    pub tax_amount: u128,
    pub total: u128,
}

/// The mathematical content of an [`InvoiceResult`].
pub struct InvoiceResultView {
    pub file_path: Seq<char>,
    pub date_issued: Seq<char>,
    pub due_date: Seq<char>,
    pub subtotal: int,
    pub tax_amount: int,
    pub total: int,
}

impl View for InvoiceResult {
    type V = InvoiceResultView;

    open spec fn view(&self) -> InvoiceResultView {
        InvoiceResultView {
            file_path: self.file_path@,
            date_issued: self.date_issued@,
            due_date: self.due_date@,
            subtotal: self.subtotal as int,
            tax_amount: self.tax_amount as int,
            total: self.total as int,
        }
    }
}

/// An invoice ready to be rendered: its lines and its result.
#[derive(Debug)]
pub struct InvoiceDocument {
    pub lines: Vec<InvoiceLine>,
    pub result: InvoiceResult,
}

/// The result of the invoice that is issued at `issued` and written into
/// `dir`.
pub open spec fn result_of(
    entries: Seq<EntryView>,
    rates: Seq<ProjectRateView>,
    tax_rate: u32,
    number: i64,
    terms: Seq<char>,
    dir: Seq<char>,
    issued: Timestamp,
) -> InvoiceResultView {
    InvoiceResultView {
        file_path: invoice_path(dir, number),
        date_issued: civil_date_text(issued.spec_secs()),
        due_date: civil_date_text(due_instant(issued, terms).spec_secs()),
        subtotal: subtotal_units(entries, rates),
        tax_amount: tax_units(entries, rates, tax_rate),
        total: total_units(entries, rates, tax_rate),
    }
}

/// Computes the invoice that is issued at `issued` and is to be written into
/// `invoice_dir`: its lines and totals, its file path, its date and its due
/// date under the payment terms of the settings. Rendering is left to the
/// caller.
pub fn prepare_invoice(params: &InvoiceParams, invoice_dir: &str, issued: &Timestamp) -> (r:
    Result<InvoiceDocument, InvoiceError>)
    ensures
        r.is_ok() <==> all_valid(params.entries.deep_view()) && total_units(
            params.entries.deep_view(),
            params.project_rates.deep_view(),
            params.tax_rate,
        ) <= u128::MAX,
        match r {
            Ok(doc) => {
                &&& doc.lines.deep_view() == lines_of(
                    params.entries.deep_view(),
                    params.project_rates.deep_view(),
                )
                &&& doc.result@ == result_of(
                    params.entries.deep_view(),
                    params.project_rates.deep_view(),
                    params.tax_rate,
                    params.invoice_number,
                    params.settings@.default_payment_terms,
                    invoice_dir@,
                    *issued,
                )
            },
            Err(InvoiceError::EndsBeforeStart(id)) => !all_valid(params.entries.deep_view())
                && first_invalid(params.entries.deep_view()) == Some(id),
            Err(InvoiceError::Overflow) => all_valid(params.entries.deep_view()),
        },
{
    match aggregate(params.entries, params.project_rates, params.tax_rate) {
        Ok(totals) => {
            let result = InvoiceResult {
                file_path: invoice_file_path(invoice_dir, params.invoice_number),
                date_issued: issued.date_text(),
                due_date: calculate_due_date(issued, params.settings.default_payment_terms.as_str()),
                subtotal: totals.subtotal,
                tax_amount: totals.tax_amount,
                total: totals.total,
            };
            Ok(InvoiceDocument { lines: totals.lines, result })
        },
        Err(e) => Err(e),
    }
}

/// The record of a generated invoice, not stored yet (identity 0).
pub open spec fn record_of(
    result: InvoiceResultView,
    number: i64,
    client_id: Option<i64>,
    tax_rate: u32,
) -> InvoiceView {
    InvoiceView {
        id: 0,
        invoice_number: number,
        client_id,
        date_issued: result.date_issued,
        due_date: result.due_date,
        subtotal: result.subtotal as u128,
        tax_rate,
        tax_amount: result.tax_amount as u128,
        total: result.total as u128,
        file_path: result.file_path,
    }
}

/// Builds the record of a generated invoice.
pub fn invoice_record(result: &InvoiceResult, number: i64, client_id: Option<i64>, tax_rate: u32)
    -> (r: Invoice)
    ensures
        r@ == record_of(result@, number, client_id, tax_rate),
{
    Invoice {
        id: 0,
        invoice_number: number,
        client_id,
        date_issued: result.date_issued.clone(),
        due_date: result.due_date.clone(),
        subtotal: result.subtotal,
        tax_rate,
        tax_amount: result.tax_amount,
        total: result.total,
        file_path: result.file_path.clone(),
    }
}

/// Whether the entry has ended in the given month of the given year, in UTC.
pub open spec fn ended_in(e: EntryView, year: i32, month: u32) -> bool {
    match e.end {
        Some(end) => civil_year(end.spec_secs()) == year && civil_month(end.spec_secs()) == month,
        None => false,
    }
}

/// The entries that ended in the given month of the given year, in their
/// order.
pub open spec fn ended_in_month(entries: Seq<EntryView>, year: i32, month: u32) -> Seq<EntryView>
    decreases entries.len(),
{
    if entries.len() == 0 {
        Seq::empty()
    } else if ended_in(entries.last(), year, month) {
        ended_in_month(entries.drop_last(), year, month).push(entries.last())
    } else {
        ended_in_month(entries.drop_last(), year, month)
    }
}

/// Whether the entry has ended in the given month of the given year.
pub fn entry_ended_in(entry: &Entry, year: i32, month: u32) -> (r: bool)
    ensures
        r == ended_in(entry@, year, month),
        r ==> 1 <= month <= 12,
{
    match &entry.end {
        Some(end) => {
            let date = end.date();
            date.year == year && date.month == month
        },
        None => false,
    }
}

/// Filters entries by the month and year in which they ended. No entry ends
/// in a month that the calendar does not have.
pub fn filter_entries_by_month(entries: &Vec<Entry>, year: i32, month: u32) -> (r: Vec<Entry>)
    ensures
        r.deep_view() == ended_in_month(entries.deep_view(), year, month),
        !(1 <= month <= 12) ==> r.len() == 0,
{
    let mut kept: Vec<Entry> = Vec::new();
    let mut i: usize = 0;
    proof {
        assert(entries.deep_view().subrange(0, 0) =~= Seq::<EntryView>::empty());
        assert(kept.deep_view() =~= Seq::<EntryView>::empty());
    }
    while i < entries.len()
        invariant
            i <= entries.len(),
            kept.deep_view() == ended_in_month(
                entries.deep_view().subrange(0, i as int),
                year,
                month,
            ),
            !(1 <= month <= 12) ==> kept.len() == 0,
        decreases entries.len() - i,
    {
        let ghost before = kept.deep_view();
        proof {
            let upto = entries.deep_view().subrange(0, i + 1);
            assert(upto.drop_last() =~= entries.deep_view().subrange(0, i as int));
            assert(upto.last() == entries[i as int]@);
        }
        if entry_ended_in(&entries[i], year, month) {
            let copy = entries[i].clone();
            kept.push(copy);
            proof {
                assert(kept.deep_view() =~= before.push(copy@));
            }
        }
        i += 1;
    }
    proof {
        assert(entries.deep_view().subrange(0, entries.len() as int) =~= entries.deep_view());
    }
    kept
}

/// The entries that are billed, in their order.
pub open spec fn billed_only(entries: Seq<EntryView>) -> Seq<EntryView>
    decreases entries.len(),
{
    if entries.len() == 0 {
        Seq::empty()
    } else if entries.last().billed {
        billed_only(entries.drop_last()).push(entries.last())
    } else {
        billed_only(entries.drop_last())
    }
}

/// Copies of the entries that are billed, in their order: those that an
/// invoice of the entries would cover.
pub fn billed_entries(entries: &Vec<Entry>) -> (r: Vec<Entry>)
    ensures
        r.deep_view() == billed_only(entries.deep_view()),
{
    let mut kept: Vec<Entry> = Vec::new();
    let mut i: usize = 0;
    proof {
        assert(entries.deep_view().subrange(0, 0) =~= Seq::<EntryView>::empty());
        assert(kept.deep_view() =~= Seq::<EntryView>::empty());
    }
    while i < entries.len()
        invariant
            i <= entries.len(),
            kept.deep_view() == billed_only(entries.deep_view().subrange(0, i as int)),
        decreases entries.len() - i,
    {
        let ghost before = kept.deep_view();
        proof {
            let upto = entries.deep_view().subrange(0, i + 1);
            assert(upto.drop_last() =~= entries.deep_view().subrange(0, i as int));
            assert(upto.last() == entries[i as int]@);
        }
        if entries[i].billed {
            let copy = entries[i].clone();
            kept.push(copy);
            proof {
                assert(kept.deep_view() =~= before.push(copy@));
            }
        }
        i += 1;
    }
    proof {
        assert(entries.deep_view().subrange(0, entries.len() as int) =~= entries.deep_view());
    }
    kept
}

} // verus!
