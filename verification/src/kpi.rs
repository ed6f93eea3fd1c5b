//! The KPI delta engine and the aggregator.
//!
//! Each document type contributes a signed delta to the KPI according to a
//! fixed financial rule; a batch is folded in order into a cumulative KPI.
//! All values are micro-units of currency (`fixed::MICRO_PER_UNIT`).

use crate::document::{
    amount_bounded, amount_or_zero, classify, identify_file_type, Asset, CreditEntry, Document,
    DocumentType, AMOUNT_MAX, MAX_ASSETS,
};
use crate::fixed::{
    lemma_round_div_bound, lemma_round_div_scale, round_div, round_div_i128, MICRO_PER_UNIT,
};
use vstd::arithmetic::div_mod::lemma_div_is_ordered_by_denominator;
use vstd::prelude::*;

verus! {

/// Largest number of documents of a well-formed batch.
pub const MAX_DOCS: usize = 100_000;

/// Largest magnitude a running KPI passed to `calculate_kpi` may have; far
/// above what any well-formed batch can accumulate, and small enough that
/// adding one more document delta cannot overflow.
pub const RUNNING_KPI_MAX: i128 = 1_000_000_000_000_000_000_000_000_000_000_000;

/// The account whose credits count as revenue.
pub open spec fn sales_revenue_account() -> Seq<char> {
    "Sales Revenue"@
}

/// The outcome of a KPI computation: the running KPI after the input was
/// folded in, the change the input contributed, and the classification of
/// the (last) document processed. All monetary values are micro-units.
pub struct KPIResult {
    /// The running KPI, in micro-units.
    pub kpi: i128,
    /// The delta contributed by the processed input, in micro-units.
    pub change: i128,
    /// The classification of the last document processed.
    pub file_type: DocumentType,
}

/// The delta of a journal entry: the amount of the first credit against the
/// sales revenue account, or zero where there is none.
pub open spec fn journal_delta_seq(cs: Seq<CreditEntry>) -> int
    decreases cs.len(),
{
    if cs.len() == 0 {
        0
    } else if cs[0].account@ == sales_revenue_account() {
        amount_or_zero(cs[0].amount)
    } else {
        journal_delta_seq(cs.drop_first())
    }
}

/// The delta of a journal document; a missing `credits` array contributes
/// nothing.
pub open spec fn journal_delta(d: Document) -> int {
    match d.credits {
        Some(cs) => journal_delta_seq(cs@),
        None => 0,
    }
}

/// The useful life of an asset in micro-years: the stated positive value, or
/// one year where the field is missing or not positive — never zero, so the
/// depreciation divisor is never zero.
pub open spec fn asset_life(a: Asset) -> int {
    match a.useful_life_years {
        Some(y) => if y > 0 {
            y as int
        } else {
            MICRO_PER_UNIT as int
        },
        None => MICRO_PER_UNIT as int,
    }
}

/// Straight-line monthly depreciation of one asset, in micro-units, rounded
/// half away from zero: `(originalCost - residualValue) / (life_years * 12)`.
pub open spec fn asset_monthly_dep(a: Asset) -> int {
    round_div(
        (amount_or_zero(a.original_cost) - amount_or_zero(a.residual_value)) * MICRO_PER_UNIT,
        12 * asset_life(a),
    )
}

/// Total monthly depreciation of an asset register.
pub open spec fn assets_dep_seq(s: Seq<Asset>) -> int
    decreases s.len(),
{
    if s.len() == 0 {
        0
    } else {
        assets_dep_seq(s.drop_last()) + asset_monthly_dep(s.last())
    }
}

/// The delta of a register document: depreciation is a deduction, so the
/// summed depreciation is negated. A missing `assetList` contributes
/// nothing.
pub open spec fn fixed_assets_delta(d: Document) -> int {
    match d.asset_list {
        Some(al) => -assets_dep_seq(al@),
        None => 0,
    }
}

/// The delta of a payroll document: the gross pay is a deduction.
pub open spec fn payroll_delta(d: Document) -> int {
    -amount_or_zero(d.gross_pay)
}

/// The delta of an overhead report: a fixed ten percent of the total
/// overhead cost is deducted.
pub open spec fn overhead_delta(d: Document) -> int {
    -round_div(amount_or_zero(d.total_overhead_cost), 10)
}

/// The delta a document contributes to the KPI, by its classification.
/// Unrecognized documents contribute nothing.
pub open spec fn doc_delta(d: Document) -> int {
    match classify(d) {
        DocumentType::JournalEntry => journal_delta(d),
        DocumentType::FixedAssetsRegister => fixed_assets_delta(d),
        DocumentType::PayrollExpense => payroll_delta(d),
        DocumentType::OverheadReport => overhead_delta(d),
        DocumentType::Unknown => 0,
    }
}

/// Bound on the monthly depreciation of one well-formed asset.
pub open spec fn asset_dep_bound() -> int {
    200_000_000_000_000_000_000
}

/// Bound on the delta of one well-formed document.
pub open spec fn doc_delta_bound() -> int {
    20_000_000_000_000_000_000_000_000
}

/// The cumulative KPI of an ordered batch: the sum of the documents'
/// deltas.
pub open spec fn batch_delta(docs: Seq<Document>) -> int
    decreases docs.len(),
{
    if docs.len() == 0 {
        0
    } else {
        batch_delta(docs.drop_last()) + doc_delta(docs.last())
    }
}

/// The classification reported for a batch: that of the last document, or
/// `Unknown` for an empty batch.
pub open spec fn batch_last_type(docs: Seq<Document>) -> DocumentType {
    if docs.len() == 0 {
        DocumentType::Unknown
    } else {
        classify(docs.last())
    }
}

/// A well-formed batch: not unboundedly long, every document well-formed.
pub open spec fn batch_wf(docs: Seq<Document>) -> bool {
    docs.len() <= MAX_DOCS && forall|i: int| 0 <= i < docs.len() ==> (#[trigger] docs[i]).wf()
}

/// The depreciation divisor of an asset is always strictly positive — a
/// missing or non-positive useful life falls back to one year, so the rule
/// never divides by zero.
pub proof fn lemma_depreciation_divisor_positive(a: Asset)
    ensures
        12 * asset_life(a) >= 12,
{
}

/// An asset whose `usefulLife_years` field is omitted depreciates over one
/// year: its monthly depreciation is the cost less the residual, divided by
/// twelve.
pub proof fn lemma_default_life_divides_by_twelve(a: Asset)
    requires
        a.useful_life_years is None,
    ensures
        asset_monthly_dep(a) == round_div(
            amount_or_zero(a.original_cost) - amount_or_zero(a.residual_value),
            12,
        ),
{
    let diff = amount_or_zero(a.original_cost) - amount_or_zero(a.residual_value);
    lemma_round_div_scale(diff, 12, MICRO_PER_UNIT as int);
    assert(diff * MICRO_PER_UNIT == MICRO_PER_UNIT * diff);
    assert(12 * asset_life(a) == MICRO_PER_UNIT * 12);
}

/// The monthly depreciation of a well-formed asset is bounded.
pub proof fn lemma_asset_dep_bound(a: Asset)
    requires
        a.wf(),
    ensures
        -asset_dep_bound() <= asset_monthly_dep(a) <= asset_dep_bound(),
{
    let diff = (amount_or_zero(a.original_cost) - amount_or_zero(a.residual_value)) * (
    MICRO_PER_UNIT as int);
    let d = 12 * asset_life(a);
    let big = 2_000_000_000_000_000_000_000;
    lemma_round_div_bound(diff, d, big);
    lemma_div_is_ordered_by_denominator(big, 12, d);
}

/// The summed depreciation of a well-formed register is bounded by the
/// entry count times the per-asset bound.
pub proof fn lemma_assets_dep_seq_bound(s: Seq<Asset>)
    requires
        forall|i: int| 0 <= i < s.len() ==> (#[trigger] s[i]).wf(),
    ensures
        -(s.len() * asset_dep_bound()) <= assets_dep_seq(s) <= s.len() * asset_dep_bound(),
    decreases s.len(),
{
    if s.len() > 0 {
        lemma_assets_dep_seq_bound(s.drop_last());
        lemma_asset_dep_bound(s.last());
    }
}

/// The journal delta is one credit amount of the document (or zero), so it
/// is bounded by the amount bound.
pub proof fn lemma_journal_delta_seq_bound(cs: Seq<CreditEntry>)
    requires
        forall|i: int| 0 <= i < cs.len() ==> (#[trigger] cs[i]).wf(),
    ensures
        -AMOUNT_MAX <= journal_delta_seq(cs) <= AMOUNT_MAX,
    decreases cs.len(),
{
    if cs.len() > 0 {
        if cs[0].account@ != sales_revenue_account() {
            lemma_journal_delta_seq_bound(cs.drop_first());
        }
    }
}

/// The delta of a well-formed document is bounded.
pub proof fn lemma_doc_delta_bound(d: Document)
    requires
        d.wf(),
    ensures
        -doc_delta_bound() <= doc_delta(d) <= doc_delta_bound(),
{
    match classify(d) {
        DocumentType::JournalEntry => {
            match d.credits {
                Some(cs) => lemma_journal_delta_seq_bound(cs@),
                None => {},
            }
        },
        DocumentType::FixedAssetsRegister => {
            match d.asset_list {
                Some(al) => {
                    lemma_assets_dep_seq_bound(al@);
                    assert(al@.len() * asset_dep_bound() <= MAX_ASSETS * asset_dep_bound());
                },
                None => {},
            }
        },
        DocumentType::PayrollExpense => {},
        DocumentType::OverheadReport => {
            lemma_round_div_bound(amount_or_zero(d.total_overhead_cost), 10, AMOUNT_MAX as int);
        },
        DocumentType::Unknown => {},
    }
}

/// The cumulative KPI adds up over concatenation of batches.
pub proof fn lemma_batch_delta_concat(s1: Seq<Document>, s2: Seq<Document>)
    ensures
        batch_delta(s1 + s2) == batch_delta(s1) + batch_delta(s2),
    decreases s2.len(),
{
    if s2.len() == 0 {
        assert(s1 + s2 =~= s1);
    } else {
        lemma_batch_delta_concat(s1, s2.drop_last());
        assert((s1 + s2).drop_last() =~= s1 + s2.drop_last());
        assert((s1 + s2).last() == s2.last());
    }
}

/// The cumulative KPI is a pure sum, so exchanging two documents — or two
/// whole runs of documents — leaves it unchanged, while the reported
/// classification follows whichever document comes last.
pub proof fn lemma_kpi_order_insensitive(d1: Document, d2: Document)
    ensures
        batch_delta(seq![d1, d2]) == batch_delta(seq![d2, d1]),
        batch_last_type(seq![d1, d2]) == classify(d2),
        batch_last_type(seq![d2, d1]) == classify(d1),
{
    assert(seq![d1, d2] =~= seq![d1] + seq![d2]);
    assert(seq![d2, d1] =~= seq![d2] + seq![d1]);
    lemma_batch_delta_concat(seq![d1], seq![d2]);
    lemma_batch_delta_concat(seq![d2], seq![d1]);
    assert(seq![d1, d2].last() == d2);
    assert(seq![d2, d1].last() == d1);
}

/// Exchanging any two runs of documents leaves the cumulative KPI
/// unchanged.
pub proof fn lemma_batch_delta_swap(s1: Seq<Document>, s2: Seq<Document>)
    ensures
        batch_delta(s1 + s2) == batch_delta(s2 + s1),
{
    lemma_batch_delta_concat(s1, s2);
    lemma_batch_delta_concat(s2, s1);
}

/// Scans the `credits` array in order and returns the amount of the first
/// credit whose account is exactly the sales revenue account; zero where no
/// credit matches, the array is missing, or the amount is missing.
#[verifier::loop_isolation(false)]
pub fn process_journal_entry(data: &Document) -> (r: i64)
    ensures
        r as int == journal_delta(*data),
{
    let sales: String = "Sales Revenue".to_owned();
    if let Some(credits) = &data.credits {
        let n = credits.len();
        proof {
            assert(credits@.skip(0) =~= credits@);
        }
        for i in 0..n
            invariant
                n == credits@.len(),
                journal_delta_seq(credits@.skip(i as int)) == journal_delta_seq(credits@),
        {
            let credit = &credits[i];
            proof {
                assert(credits@.skip(i as int)[0] == credits@[i as int]);
                assert(credits@.skip(i as int).drop_first() =~= credits@.skip(i + 1));
            }
            if credit.account == sales {
                return match credit.amount {
                    Some(a) => a,
                    None => 0,
                };
            }
        }
        proof {
            assert(credits@.skip(n as int) =~= Seq::<CreditEntry>::empty());
        }
        0
    } else {
        0
    }
}

/// Sums the straight-line monthly depreciation over the `assetList` and
/// negates it: depreciation is a KPI deduction. Missing cost and residual
/// fields default to zero; a missing or non-positive useful life defaults to
/// one year.
#[verifier::loop_isolation(false)]
pub fn process_fixed_assets(data: &Document) -> (r: i128)
    requires
        data.wf(),
    ensures
        r as int == fixed_assets_delta(*data),
{
    if let Some(assets) = &data.asset_list {
        let n = assets.len();
        let mut total: i128 = 0;
        for i in 0..n
            invariant
                n == assets@.len(),
                total as int == assets_dep_seq(assets@.take(i as int)),
                -(i * asset_dep_bound()) <= total as int <= i * asset_dep_bound(),
        {
            let asset = &assets[i];
            let cost: i64 = match asset.original_cost {
                Some(c) => c,
                None => 0,
            };
            let residual: i64 = match asset.residual_value {
                Some(v) => v,
                None => 0,
            };
            let life: i64 = match asset.useful_life_years {
                Some(y) => if y > 0 {
                    y
                } else {
                    MICRO_PER_UNIT
                },
                None => MICRO_PER_UNIT,
            };
            let monthly_dep: i128 = round_div_i128(
                (cost as i128 - residual as i128) * (MICRO_PER_UNIT as i128),
                12 * (life as i128),
            );
            proof {
                assert(monthly_dep as int == asset_monthly_dep(assets@[i as int]));
                lemma_asset_dep_bound(assets@[i as int]);
                assert(assets@.take(i + 1).drop_last() =~= assets@.take(i as int));
                assert(assets@.take(i + 1).last() == assets@[i as int]);
            }
            total = total + monthly_dep;
        }
        proof {
            assert(assets@.take(n as int) =~= assets@);
        }
        -total
    } else {
        0
    }
}

/// The payroll deduction: the negated gross pay, zero where missing.
pub fn process_payroll(data: &Document) -> (r: i64)
    requires
        amount_bounded(data.gross_pay),
    ensures
        r as int == payroll_delta(*data),
{
    let gross_pay: i64 = match data.gross_pay {
        Some(g) => g,
        None => 0,
    };
    -gross_pay
}

/// The overhead deduction: ten percent of the total overhead cost, negated;
/// zero where missing.
pub fn process_overhead(data: &Document) -> (r: i64)
    requires
        amount_bounded(data.total_overhead_cost),
    ensures
        r as int == overhead_delta(*data),
{
    let overhead: i64 = match data.total_overhead_cost {
        Some(c) => c,
        None => 0,
    };
    let tenth: i128 = round_div_i128(overhead as i128, 10);
    proof {
        lemma_round_div_bound(overhead as int, 10, AMOUNT_MAX as int);
    }
    -(tenth as i64)
}

/// Classifies a document and computes its delta by the matching rule.
pub fn document_change(document: &Document) -> (r: i128)
    requires
        document.wf(),
    ensures
        r as int == doc_delta(*document),
        -doc_delta_bound() <= r as int <= doc_delta_bound(),
{
    proof {
        lemma_doc_delta_bound(*document);
    }
    match identify_file_type(document) {
        DocumentType::JournalEntry => process_journal_entry(document) as i128,
        DocumentType::FixedAssetsRegister => process_fixed_assets(document),
        DocumentType::PayrollExpense => process_payroll(document) as i128,
        DocumentType::OverheadReport => process_overhead(document) as i128,
        DocumentType::Unknown => 0,
    }
}

/// Folds one document into a caller-supplied running KPI: the result holds
/// the updated KPI, the document's delta, and its classification. Total on
/// well-formed documents: classification never fails and missing fields
/// fall back to defaults, so no input with in-range amounts is rejected.
pub fn calculate_kpi(document: &Document, current_kpi: i128) -> (r: KPIResult)
    requires
        document.wf(),
        -RUNNING_KPI_MAX <= current_kpi <= RUNNING_KPI_MAX,
    ensures
        r.change == doc_delta(*document),
        r.kpi == current_kpi + doc_delta(*document),
        r.file_type == classify(*document),
{
    let file_type = identify_file_type(document);
    let change = document_change(document);
    KPIResult { kpi: current_kpi + change, change, file_type }
}

} // verus!
