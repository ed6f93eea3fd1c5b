//! The document model and the classifier.
//!
//! A document arrives as a tree of JSON-like values; the pipeline only ever
//! reads a fixed handful of fields, so the model holds exactly those fields
//! as plain values. A field that is absent, or whose value has the wrong
//! type, is `None` (or `false` for pure presence checks): field access is
//! lenient throughout, and a missing value falls back to a stated default
//! instead of failing. Monetary fields are in micro-units (`fixed`).

use vstd::prelude::*;

verus! {

/// Largest magnitude, in micro-units, of a monetary field of a well-formed
/// document: one billion currency units.
pub const AMOUNT_MAX: i64 = 1_000_000_000_000_000;

/// Largest number of entries of a well-formed asset register.
pub const MAX_ASSETS: usize = 100_000;

/// The classification tags, in their precedence order.
#[derive(Clone, Copy, Debug, PartialEq, Eq, Structural)]
pub enum DocumentType {
    JournalEntry,
    FixedAssetsRegister,
    PayrollExpense,
    OverheadReport,
    Unknown,
}

/// One entry of a journal document's `credits` array.
pub struct CreditEntry {
    /// The `account` field; empty where the field is missing.
    pub account: String,
    /// The `amount` field in micro-units; `None` where missing or not a
    /// number.
    pub amount: Option<i64>,
}

/// One entry of a register document's `assetList` array.
pub struct Asset {
    /// Whether the entry has an `assetID` field.
    pub has_asset_id: bool,
    /// The `originalCost` field in micro-units.
    pub original_cost: Option<i64>,
    /// The `residualValue` field in micro-units.
    pub residual_value: Option<i64>,
    /// The `usefulLife_years` field in micro-years.
    pub useful_life_years: Option<i64>,
}

/// A parsed accounting document, reduced to the fields the pipeline reads.
pub struct Document {
    /// Whether the document has a `journalEntryId` field.
    pub has_journal_entry_id: bool,
    /// The `credits` array; `None` where missing or not an array.
    pub credits: Option<Vec<CreditEntry>>,
    /// The `assetList` array; `None` where missing or not an array.
    pub asset_list: Option<Vec<Asset>>,
    /// Whether the document has an `employeeDetails` field.
    pub has_employee_details: bool,
    /// The `reportTitle` field; `None` where missing or not a string.
    pub report_title: Option<String>,
    /// The `grossPay` field in micro-units.
    pub gross_pay: Option<i64>,
    /// The `totalOverheadCost` field in micro-units.
    pub total_overhead_cost: Option<i64>,
}

/// The title that marks an overhead report.
pub open spec fn overhead_report_title() -> Seq<char> {
    "Corporate Overhead Report"@
}

/// A monetary field is bounded by `AMOUNT_MAX` when present.
pub open spec fn amount_bounded(a: Option<i64>) -> bool {
    match a {
        Some(x) => -AMOUNT_MAX <= x <= AMOUNT_MAX,
        None => true,
    }
}

/// The value of a monetary field, defaulting to zero where absent.
pub open spec fn amount_or_zero(a: Option<i64>) -> int {
    match a {
        Some(x) => x as int,
        None => 0,
    }
}

impl Asset {
    /// Monetary fields of the entry stay within the fixed-point range.
    pub open spec fn wf(self) -> bool {
        amount_bounded(self.original_cost) && amount_bounded(self.residual_value)
    }
}

impl CreditEntry {
    /// The amount stays within the fixed-point range.
    pub open spec fn wf(self) -> bool {
        amount_bounded(self.amount)
    }
}

impl Document {
    /// Every monetary field stays within the fixed-point range and the asset
    /// register is not unboundedly long; together these keep every KPI delta
    /// within the range the aggregator accounts for.
    pub open spec fn wf(self) -> bool {
        &&& match self.credits {
            Some(cs) => forall|i: int| 0 <= i < cs@.len() ==> (#[trigger] cs@[i]).wf(),
            None => true,
        }
        &&& match self.asset_list {
            Some(al) => al@.len() <= MAX_ASSETS && forall|i: int|
                0 <= i < al@.len() ==> (#[trigger] al@[i]).wf(),
            None => true,
        }
        &&& amount_bounded(self.gross_pay)
        &&& amount_bounded(self.total_overhead_cost)
    }

    /// A document with no recognized field at all: it classifies as
    /// `Unknown` and contributes nothing.
    pub fn empty() -> (d: Document)
        ensures
            !d.has_journal_entry_id,
            d.credits is None,
            d.asset_list is None,
            !d.has_employee_details,
            d.report_title is None,
            d.gross_pay is None,
            d.total_overhead_cost is None,
            d.wf(),
    {
        Document {
            has_journal_entry_id: false,
            credits: None,
            asset_list: None,
            has_employee_details: false,
            report_title: None,
            gross_pay: None,
            total_overhead_cost: None,
        }
    }
}

/// The classification of a document: presence-based, first match wins.
pub open spec fn classify(d: Document) -> DocumentType {
    if d.has_journal_entry_id {
        DocumentType::JournalEntry
    } else if classifies_as_register(d) {
        DocumentType::FixedAssetsRegister
    } else if d.has_employee_details {
        DocumentType::PayrollExpense
    } else if classifies_as_overhead(d) {
        DocumentType::OverheadReport
    } else {
        DocumentType::Unknown
    }
}

/// A non-empty `assetList` whose first entry has an `assetID` field.
pub open spec fn classifies_as_register(d: Document) -> bool {
    match d.asset_list {
        Some(al) => al@.len() > 0 && al@[0].has_asset_id,
        None => false,
    }
}

/// A `reportTitle` field that holds exactly the overhead report title.
pub open spec fn classifies_as_overhead(d: Document) -> bool {
    match d.report_title {
        Some(t) => t@ == overhead_report_title(),
        None => false,
    }
}

/// Returns the document's classification tag. The checks run in precedence
/// order and the first that holds decides; a document that matches none of
/// them is `Unknown`. Never fails: an absent or wrong-typed field simply
/// does not match.
pub fn identify_file_type(data: &Document) -> (t: DocumentType)
    ensures
        t == classify(*data),
{
    if data.has_journal_entry_id {
        return DocumentType::JournalEntry;
    }
    if let Some(asset_list) = &data.asset_list {
        if asset_list.len() > 0 {
            if asset_list[0].has_asset_id {
                return DocumentType::FixedAssetsRegister;
            }
        }
    }
    if data.has_employee_details {
        return DocumentType::PayrollExpense;
    }
    if let Some(title) = &data.report_title {
        let expected: String = "Corporate Overhead Report".to_owned();
        if *title == expected {
            return DocumentType::OverheadReport;
        }
    }
    DocumentType::Unknown
}

impl DocumentType {
    /// The tag's name, as a classification result reports it.
    pub open spec fn name_spec(self) -> Seq<char> {
        match self {
            DocumentType::JournalEntry => "JournalEntry"@,
            DocumentType::FixedAssetsRegister => "FixedAssetsRegister"@,
            DocumentType::PayrollExpense => "PayrollExpense"@,
            DocumentType::OverheadReport => "OverheadReport"@,
            DocumentType::Unknown => "Unknown"@,
        }
    }

    /// Returns the tag's name.
    pub fn name(&self) -> (r: String)
        ensures
            r@ == self.name_spec(),
    {
        match self {
            DocumentType::JournalEntry => "JournalEntry".to_owned(),
            DocumentType::FixedAssetsRegister => "FixedAssetsRegister".to_owned(),
            DocumentType::PayrollExpense => "PayrollExpense".to_owned(),
            DocumentType::OverheadReport => "OverheadReport".to_owned(),
            DocumentType::Unknown => "Unknown".to_owned(),
        }
    }
}

/// Classification looks only at field presence (and one title string), so a
/// document that carries both a `journalEntryId` and an `employeeDetails`
/// field is a `JournalEntry`: the journal check comes first and wins.
pub proof fn lemma_classification_precedence(d: Document)
    requires
        d.has_journal_entry_id,
        d.has_employee_details,
    ensures
        classify(d) == DocumentType::JournalEntry,
{
}

} // verus!
