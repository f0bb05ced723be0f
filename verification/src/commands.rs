//! What the till's screens are given: the error every command reports, and the plain views the
//! UI renders.
//!
//! Every monetary field is an exact integer of minor units; nothing here is a float or a
//! pre-formatted amount.

use vstd::prelude::*;
use crate::scheduler::SyncStatus;
use crate::till::{TerminalError, terminal_message};
use crate::cli::{StaffRole, role_named};
use crate::text::{str_eq, trim, trim_chars};

verus! {

/// What the UI receives when something goes wrong.
///
/// A code plus a human message: the code is what the UI branches on, the message is what a
/// cashier reads.
#[derive(Debug, Clone, PartialEq, Eq)]
pub struct CommandError {
    pub code: &'static str,
    pub message: String,
}

/// The code the UI branches on for each refusal.
///
/// A corrupt scale label has its own code: it means "scan it again", which is different advice
/// from anything else the till refuses.
pub open spec fn code_of(error: TerminalError) -> Seq<char> {
    match error {
        TerminalError::CorruptLog { .. } => "corrupt_log"@,
        TerminalError::UnknownSale { .. } => "unknown_sale"@,
        TerminalError::TicketHeld { .. } => "ticket_held"@,
        TerminalError::Store(_) => "storage"@,
        TerminalError::Event(_) => "event"@,
        TerminalError::Scale(_) => "bad_scan"@,
        TerminalError::NotInvoiced { .. } => "not_invoiced"@,
        TerminalError::UnknownOrder { .. } => "unknown_order"@,
        TerminalError::NotAuthorized => "not_authorized"@,
        TerminalError::NoApprover => "no_approver"@,
        TerminalError::NoOpenShift => "no_open_shift"@,
        TerminalError::ShiftAlreadyOpen => "shift_already_open"@,
        _ => "rejected"@,
    }
}

impl CommandError {
    /// The error a command reports for a refusal: its code, and the refusal's own sentence.
    pub fn from_error(error: &TerminalError) -> (r: CommandError)
        ensures
            r.code@ == code_of(*error),
            r.message@ == terminal_message(*error),
    {
        let code = match error {
            TerminalError::CorruptLog { .. } => "corrupt_log",
            TerminalError::UnknownSale { .. } => "unknown_sale",
            TerminalError::TicketHeld { .. } => "ticket_held",
            TerminalError::Store(_) => "storage",
            TerminalError::Event(_) => "event",
            TerminalError::Scale(_) => "bad_scan",
            TerminalError::NotInvoiced { .. } => "not_invoiced",
            TerminalError::UnknownOrder { .. } => "unknown_order",
            TerminalError::NotAuthorized => "not_authorized",
            TerminalError::NoApprover => "no_approver",
            TerminalError::NoOpenShift => "no_open_shift",
            TerminalError::ShiftAlreadyOpen => "shift_already_open",
            TerminalError::Sale(_) | TerminalError::Shift(_) | TerminalError::Inventory(_)
            | TerminalError::Directory(_) | TerminalError::Purchase(_) | TerminalError::Fiscal(_)
            | TerminalError::Outlet(_) | TerminalError::Catalogue(_) | TerminalError::Floor(_)
            | TerminalError::Weigh(_) | TerminalError::FiscalDocument(_) | TerminalError::Denied => "rejected",
        };
        CommandError { code, message: error.message() }
    }

    /// The error every command reports once the till's lock is poisoned.
    pub fn poisoned() -> (r: CommandError)
        ensures
            r.code@ == "poisoned"@,
            r.message@ == "the till is in an inconsistent state and must be restarted"@,
    {
        CommandError {
            code: "poisoned",
            message: "the till is in an inconsistent state and must be restarted".to_owned(),
        }
    }
}

/// Shift banner: takings so far, and how much is still waiting to sync.
#[derive(Debug, Clone, PartialEq, Eq)]
pub struct TillStatus {
    pub takings_minor: i64,
    pub currency: &'static str,
    pub unsynced_count: u64,
    pub open_sales: usize,
}

/// Live sync state for the header badge.
#[derive(Debug, Clone, PartialEq, Eq)]
pub enum SyncView {
    /// Sync is not configured — a single-till shop that never syncs is a valid deployment.
    Disabled,
    UpToDate { unsynced: u64 },
    Retrying { unsynced: u64, attempts: u32 },
    /// Needs a person. Kept distinct from `Retrying` so the UI can say so.
    Stopped { reason: String },
}

impl SyncView {
    /// The badge for the sync loop's status, or for its absence: with no loop running the till is
    /// an offline-only shop, not a broken one.
    pub fn of(status: Option<SyncStatus>) -> (r: SyncView)
        ensures
            match status {
                None => r == SyncView::Disabled,
                Some(SyncStatus::UpToDate { unsynced }) => r == (SyncView::UpToDate { unsynced }),
                Some(SyncStatus::Retrying { unsynced, attempts }) => r == (SyncView::Retrying { unsynced, attempts }),
                Some(SyncStatus::Stopped { reason }) => r == (SyncView::Stopped { reason }),
            },
    {
        match status {
            None => SyncView::Disabled,
            Some(SyncStatus::UpToDate { unsynced }) => SyncView::UpToDate { unsynced },
            Some(SyncStatus::Retrying { unsynced, attempts }) => SyncView::Retrying { unsynced, attempts },
            Some(SyncStatus::Stopped { reason }) => SyncView::Stopped { reason },
        }
    }
}

/// What a scale label embeds after the item code.
#[derive(Debug, Clone, Copy, PartialEq, Eq)]
pub enum Embedded {
    Weight,
    Price,
}

/// The label the settings screen shows for what a scale label embeds.
pub fn embedded_label(embedded: Embedded) -> (r: &'static str)
    ensures
        r@ == match embedded {
            Embedded::Weight => "weight"@,
            Embedded::Price => "price"@,
        },
{
    match embedded {
        Embedded::Weight => "weight",
        Embedded::Price => "price",
    }
}

/// A configured scale layout, as the settings screen redraws it.
#[derive(Debug, Clone, PartialEq, Eq)]
pub struct ScaleFormatView {
    pub prefix: String,
    pub item_digits: u8,
    pub embedded: &'static str,
    pub value_digits: u8,
    pub value_decimals: u8,
    pub filler_digits: u8,
}

/// One row of a Mushak 6.3, by the form's own column numbers.
#[derive(Debug, Clone, PartialEq, Eq)]
pub struct ChallanLineView {
    pub serial: u32,
    pub description: String,
    pub unit: String,
    pub quantity_milli: i64,
    /// Column 5 — unit value, excluding tax.
    pub unit_value_minor: i64,
    /// Column 6 — total value, excluding tax.
    pub total_value_minor: i64,
    pub supplementary_duty_minor: i64,
    pub vat_rate_basis_points: i32,
    pub vat_amount_minor: i64,
    pub total_with_tax_minor: i64,
}

/// A fiscal document, or the fact that this outlet owes none.
#[derive(Debug, Clone, PartialEq, Eq)]
pub enum DocumentView {
    BdMushak63 {
        seller_name: String,
        seller_bin: String,
        issuing_address: String,
        buyer_name: Option<String>,
        buyer_bin: Option<String>,
        invoice_number: String,
        issued_at_millis: i64,
        lines: Vec<ChallanLineView>,
        total_value_minor: i64,
        total_vat_minor: i64,
        total_with_tax_minor: i64,
    },
    /// No regime configured. An ordinary receipt is the whole obligation.
    NoRegime,
}

/// What happened when a receipt was sent to a printer.
#[derive(Debug, Clone, PartialEq, Eq)]
pub struct PrintOutcome {
    pub printed: bool,
    /// Why not, when it did not. Shown to the cashier; never a reason to undo a sale.
    pub reason: Option<String>,
    /// How many bytes the job was.
    pub bytes: usize,
}

/// Whether a kitchen ticket orders or cancels.
#[derive(Debug, Clone, Copy, PartialEq, Eq)]
pub enum TicketKind {
    Order,
    Cancellation,
}

/// The kind a kitchen screen shows: never conflated, because a cancellation read as an order gets
/// the dish made twice.
pub fn ticket_kind_label(kind: TicketKind) -> (r: &'static str)
    ensures
        r@ == match kind {
            TicketKind::Order => "order"@,
            TicketKind::Cancellation => "cancellation"@,
        },
{
    match kind {
        TicketKind::Order => "order",
        TicketKind::Cancellation => "cancellation",
    }
}

/// One station's instruction, as a screen shows it.
#[derive(Debug, Clone, PartialEq, Eq)]
pub struct KitchenTicketView {
    pub station: &'static str,
    pub kind: &'static str,
    pub table_label: Option<String>,
    pub covers: Option<u32>,
    pub round: u32,
    pub lines: Vec<KitchenLineView>,
}

#[derive(Debug, Clone, PartialEq, Eq)]
pub struct KitchenLineView {
    pub name: String,
    pub quantity_milli: i64,
    pub modifiers: Vec<String>,
}

/// What happened when an order went to the stations.
#[derive(Debug, Clone, PartialEq, Eq)]
pub struct FireOutcome {
    /// Tickets sent, or that would have been sent had a printer been configured.
    pub tickets: Vec<KitchenTicketView>,
    pub printed: bool,
    /// Why not, when it did not. The order is recorded either way.
    pub reason: Option<String>,
}

/// How a tax rate is classed: legally distinct even when the rate matches.
#[derive(Debug, Clone, Copy, PartialEq, Eq)]
pub enum TaxClassKind {
    Standard,
    ZeroRated,
    Exempt,
}

/// The class a tax-summary row shows.
pub fn tax_class_label(class: TaxClassKind) -> (r: &'static str)
    ensures
        r@ == match class {
            TaxClassKind::Standard => "standard"@,
            TaxClassKind::ZeroRated => "zero_rated"@,
            TaxClassKind::Exempt => "exempt"@,
        },
{
    match class {
        TaxClassKind::Standard => "standard",
        TaxClassKind::ZeroRated => "zero_rated",
        TaxClassKind::Exempt => "exempt",
    }
}

/// A tax-summary row, as printed on the receipt.
#[derive(Debug, Clone, PartialEq, Eq)]
pub struct TaxGroupView {
    /// Rate in basis points; `1500` is 15%.
    pub basis_points: i32,
    /// `standard`, `zero_rated`, or `exempt`.
    pub class: &'static str,
    pub taxable_base_minor: i64,
    pub tax_minor: i64,
}

/// A receipt printer's paper.
#[derive(Debug, Clone, Copy, PartialEq, Eq)]
pub enum PaperWidth {
    Mm58,
    Mm80,
}

/// Read the paper width the UI names. A wrong width is refused rather than guessed at: printing
/// 80mm content on a 58mm roll silently truncates every line.
pub fn paper_width(paper: &str) -> (r: Result<PaperWidth, CommandError>)
    ensures
        paper@ == "mm58"@ ==> r == Ok::<PaperWidth, CommandError>(PaperWidth::Mm58),
        paper@ == "mm80"@ ==> r == Ok::<PaperWidth, CommandError>(PaperWidth::Mm80),
        paper@ != "mm58"@ && paper@ != "mm80"@ ==> (r matches Err(error)
            && error.code@ == "bad_paper"@ && error.message@ == paper@ + " is not a paper width"@),
{
    proof {
        reveal_strlit("mm58");
        reveal_strlit("mm80");
        assert("mm58"@[2] != "mm80"@[2]);
    }
    if str_eq(paper, "mm58") {
        return Ok(PaperWidth::Mm58);
    }
    if str_eq(paper, "mm80") {
        return Ok(PaperWidth::Mm80);
    }
    let mut message = paper.to_owned();
    message.append(" is not a paper width");
    Err(CommandError { code: "bad_paper", message })
}

// ---------------------------------------------------------------------------------------------
// What the screens send
// ---------------------------------------------------------------------------------------------

/// A refusal of something a screen sent: the code, and the value followed by why it was refused.
fn refused(code: &'static str, value: &str, why: &str) -> (r: CommandError)
    ensures
        r.code@ == code@,
        r.message@ == value@ + why@,
{
    let mut message = value.to_owned();
    message.append(why);
    CommandError { code, message }
}

/// Whether `r` refuses `value` with `code`, saying `why` after it.
pub open spec fn refuses<T>(r: Result<T, CommandError>, code: Seq<char>, value: Seq<char>, why: Seq<char>) -> bool {
    r matches Err(error) && error.code@ == code && error.message@ == value + why
}

/// Why cash moved in or out of the drawer.
#[derive(Debug, Clone, Copy, PartialEq, Eq)]
pub enum CashMovementReason {
    FloatTopUp,
    Skim,
    PettyCash,
    Refund,
    Correction,
}

/// The reason a screen's word names.
pub open spec fn cash_reason_named(word: Seq<char>) -> Option<CashMovementReason> {
    if word == "float_top_up"@ {
        Some(CashMovementReason::FloatTopUp)
    } else if word == "skim"@ {
        Some(CashMovementReason::Skim)
    } else if word == "petty_cash"@ {
        Some(CashMovementReason::PettyCash)
    } else if word == "refund"@ {
        Some(CashMovementReason::Refund)
    } else if word == "correction"@ {
        Some(CashMovementReason::Correction)
    } else {
        None
    }
}

/// Read a cash movement's reason. Refused rather than defaulted: a movement filed under the
/// wrong reason is worse than one the till refused, because it looks settled.
pub fn cash_reason(reason: &str) -> (r: Result<CashMovementReason, CommandError>)
    ensures
        match cash_reason_named(reason@) {
            Some(named) => r == Ok::<CashMovementReason, CommandError>(named),
            None => refuses(r, "unknown_reason"@, reason@, " is not a cash movement reason"@),
        },
{
    if str_eq(reason, "float_top_up") {
        Ok(CashMovementReason::FloatTopUp)
    } else if str_eq(reason, "skim") {
        Ok(CashMovementReason::Skim)
    } else if str_eq(reason, "petty_cash") {
        Ok(CashMovementReason::PettyCash)
    } else if str_eq(reason, "refund") {
        Ok(CashMovementReason::Refund)
    } else if str_eq(reason, "correction") {
        Ok(CashMovementReason::Correction)
    } else {
        Err(refused("unknown_reason", reason, " is not a cash movement reason"))
    }
}

/// Why stock left other than by sale.
#[derive(Debug, Clone, Copy, PartialEq, Eq)]
pub enum IssueReason {
    Wastage,
    TransferOut,
    ReturnToSupplier,
    Internal,
}

pub open spec fn issue_reason_named(word: Seq<char>) -> Option<IssueReason> {
    if word == "wastage"@ {
        Some(IssueReason::Wastage)
    } else if word == "transfer_out"@ {
        Some(IssueReason::TransferOut)
    } else if word == "return_to_supplier"@ {
        Some(IssueReason::ReturnToSupplier)
    } else if word == "internal"@ {
        Some(IssueReason::Internal)
    } else {
        None
    }
}

/// Read a stock issue's reason, refusing any other word.
pub fn issue_reason(reason: &str) -> (r: Result<IssueReason, CommandError>)
    ensures
        match issue_reason_named(reason@) {
            Some(named) => r == Ok::<IssueReason, CommandError>(named),
            None => refuses(r, "unknown_reason"@, reason@, " is not a stock issue reason"@),
        },
{
    if str_eq(reason, "wastage") {
        Ok(IssueReason::Wastage)
    } else if str_eq(reason, "transfer_out") {
        Ok(IssueReason::TransferOut)
    } else if str_eq(reason, "return_to_supplier") {
        Ok(IssueReason::ReturnToSupplier)
    } else if str_eq(reason, "internal") {
        Ok(IssueReason::Internal)
    } else {
        Err(refused("unknown_reason", reason, " is not a stock issue reason"))
    }
}

/// Why a purchase order was closed.
#[derive(Debug, Clone, Copy, PartialEq, Eq)]
pub enum CloseReason {
    Complete,
    ShortShipped,
    Cancelled,
}

pub open spec fn close_reason_named(word: Seq<char>) -> Option<CloseReason> {
    if word == "complete"@ {
        Some(CloseReason::Complete)
    } else if word == "short_shipped"@ {
        Some(CloseReason::ShortShipped)
    } else if word == "cancelled"@ {
        Some(CloseReason::Cancelled)
    } else {
        None
    }
}

/// Read why an order is being closed, refusing any other word.
pub fn close_reason(reason: &str) -> (r: Result<CloseReason, CommandError>)
    ensures
        match close_reason_named(reason@) {
            Some(named) => r == Ok::<CloseReason, CommandError>(named),
            None => refuses(r, "unknown_reason"@, reason@, " is not a reason to close an order"@),
        },
{
    if str_eq(reason, "complete") {
        Ok(CloseReason::Complete)
    } else if str_eq(reason, "short_shipped") {
        Ok(CloseReason::ShortShipped)
    } else if str_eq(reason, "cancelled") {
        Ok(CloseReason::Cancelled)
    } else {
        Err(refused("unknown_reason", reason, " is not a reason to close an order"))
    }
}

/// Read the role the staff screen names, refusing any other word.
pub fn staff_role(role: &str) -> (r: Result<StaffRole, CommandError>)
    ensures
        match role_named(role@) {
            Some(named) => r == Ok::<StaffRole, CommandError>(named),
            None => refuses(r, "bad_role"@, role@, " is not a role"@),
        },
{
    if str_eq(role, "owner") {
        Ok(StaffRole::Owner)
    } else if str_eq(role, "manager") {
        Ok(StaffRole::Manager)
    } else if str_eq(role, "cashier") {
        Ok(StaffRole::Cashier)
    } else {
        Err(refused("bad_role", role, " is not a role"))
    }
}

/// How a product is taxed, as the catalogue screen sets it.
#[derive(Debug, Clone, Copy, PartialEq, Eq)]
pub enum TaxTreatment {
    /// Taxed at a rate, in basis points.
    Standard { basis_points: i32 },
    ZeroRated,
    Exempt,
}

pub open spec fn tax_treatment_named(word: Seq<char>, basis_points: i32) -> Option<TaxTreatment> {
    if word == "standard"@ {
        Some(TaxTreatment::Standard { basis_points })
    } else if word == "zero_rated"@ {
        Some(TaxTreatment::ZeroRated)
    } else if word == "exempt"@ {
        Some(TaxTreatment::Exempt)
    } else {
        None
    }
}

/// Read a tax treatment; only a standard rate carries the basis points given with it.
pub fn tax_class(treatment: &str, basis_points: i32) -> (r: Result<TaxTreatment, CommandError>)
    ensures
        match tax_treatment_named(treatment@, basis_points) {
            Some(named) => r == Ok::<TaxTreatment, CommandError>(named),
            None => refuses(r, "bad_tax_class"@, treatment@, " is not a tax treatment"@),
        },
{
    if str_eq(treatment, "standard") {
        Ok(TaxTreatment::Standard { basis_points })
    } else if str_eq(treatment, "zero_rated") {
        Ok(TaxTreatment::ZeroRated)
    } else if str_eq(treatment, "exempt") {
        Ok(TaxTreatment::Exempt)
    } else {
        Err(refused("bad_tax_class", treatment, " is not a tax treatment"))
    }
}

/// An optional text field: blank means absent, and what is kept has no surrounding whitespace.
pub fn non_empty(value: String) -> (r: Option<String>)
    ensures
        trim_chars(value@).len() == 0 ==> r is None,
        trim_chars(value@).len() > 0 ==> (r matches Some(kept) && kept@ == trim_chars(value@)),
{
    let trimmed = trim(value.as_str());
    if trimmed.is_empty() {
        None
    } else {
        Some(trimmed.to_owned())
    }
}

/// How loudly an audit entry asks for attention.
#[derive(Debug, Clone, Copy, PartialEq, Eq)]
pub enum Severity {
    Routine,
    Notable,
    Alert,
}

/// The label an audit feed shows for a severity.
pub fn severity_label(severity: Severity) -> (r: &'static str)
    ensures
        r@ == match severity {
            Severity::Routine => "routine"@,
            Severity::Notable => "notable"@,
            Severity::Alert => "alert"@,
        },
{
    match severity {
        Severity::Routine => "routine",
        Severity::Notable => "notable",
        Severity::Alert => "alert",
    }
}

/// Something an outlet's profile lets it do.
#[derive(Debug, Clone, Copy, PartialEq, Eq)]
pub enum Capability {
    OpenTickets,
    TableService,
    KitchenRouting,
    LineModifiers,
    CourseFiring,
    SplitBills,
    WeighedItems,
    ScaleIntegration,
    BatchExpiry,
    CashDrawer,
}

/// The label the settings screen shows for a capability.
pub fn capability_label(capability: Capability) -> (r: &'static str)
    ensures
        r@ == match capability {
            Capability::OpenTickets => "open_tickets"@,
            Capability::TableService => "table_service"@,
            Capability::KitchenRouting => "kitchen_routing"@,
            Capability::LineModifiers => "line_modifiers"@,
            Capability::CourseFiring => "course_firing"@,
            Capability::SplitBills => "split_bills"@,
            Capability::WeighedItems => "weighed_items"@,
            Capability::ScaleIntegration => "scale_integration"@,
            Capability::BatchExpiry => "batch_expiry"@,
            Capability::CashDrawer => "cash_drawer"@,
        },
{
    match capability {
        Capability::OpenTickets => "open_tickets",
        Capability::TableService => "table_service",
        Capability::KitchenRouting => "kitchen_routing",
        Capability::LineModifiers => "line_modifiers",
        Capability::CourseFiring => "course_firing",
        Capability::SplitBills => "split_bills",
        Capability::WeighedItems => "weighed_items",
        Capability::ScaleIntegration => "scale_integration",
        Capability::BatchExpiry => "batch_expiry",
        Capability::CashDrawer => "cash_drawer",
    }
}

/// A refusal naming what was wrong before the value.
fn refused_naming(code: &'static str, what: &str, value: &str) -> (r: CommandError)
    ensures
        r.code@ == code@,
        r.message@ == what@ + value@,
{
    let mut message = what.to_owned();
    message.append(value);
    CommandError { code, message }
}

/// Whether `r` refuses `value` with `code`, saying `what` before it.
pub open spec fn refuses_naming<T>(r: Result<T, CommandError>, code: Seq<char>, what: Seq<char>, value: Seq<char>) -> bool {
    r matches Err(error) && error.code@ == code && error.message@ == what + value
}

/// Why a line was voided.
#[derive(Debug, Clone, Copy, PartialEq, Eq)]
pub enum VoidReason {
    Mistake,
    CustomerChanged,
    Damaged,
    Unavailable,
}

pub open spec fn void_reason_named(word: Seq<char>) -> Option<VoidReason> {
    if word == "mistake"@ {
        Some(VoidReason::Mistake)
    } else if word == "customer_changed"@ {
        Some(VoidReason::CustomerChanged)
    } else if word == "damaged"@ {
        Some(VoidReason::Damaged)
    } else if word == "unavailable"@ {
        Some(VoidReason::Unavailable)
    } else {
        None
    }
}

/// Read why a line is voided. A void without a real reason tells an owner nothing, so an
/// unrecognised one is refused rather than defaulted.
pub fn void_reason(reason: &str) -> (r: Result<VoidReason, CommandError>)
    ensures
        match void_reason_named(reason@) {
            Some(named) => r == Ok::<VoidReason, CommandError>(named),
            None => refuses_naming(r, "bad_reason"@, "unknown void reason: "@, reason@),
        },
{
    if str_eq(reason, "mistake") {
        Ok(VoidReason::Mistake)
    } else if str_eq(reason, "customer_changed") {
        Ok(VoidReason::CustomerChanged)
    } else if str_eq(reason, "damaged") {
        Ok(VoidReason::Damaged)
    } else if str_eq(reason, "unavailable") {
        Ok(VoidReason::Unavailable)
    } else {
        Err(refused_naming("bad_reason", "unknown void reason: ", reason))
    }
}

/// A mobile wallet a tender can be taken with.
#[derive(Debug, Clone, Copy, PartialEq, Eq)]
pub enum Wallet {
    Bkash,
    Nagad,
    Rocket,
    Upay,
    StcPay,
}

/// How a tender was paid.
#[derive(Debug, Clone, Copy, PartialEq, Eq)]
pub enum TenderMethod {
    Cash,
    Card,
    MobileWallet { wallet: Wallet },
    BankTransfer,
    StoreCredit,
}

pub open spec fn tender_method_named(word: Seq<char>) -> Option<TenderMethod> {
    if word == "cash"@ {
        Some(TenderMethod::Cash)
    } else if word == "card"@ {
        Some(TenderMethod::Card)
    } else if word == "bkash"@ {
        Some(TenderMethod::MobileWallet { wallet: Wallet::Bkash })
    } else if word == "nagad"@ {
        Some(TenderMethod::MobileWallet { wallet: Wallet::Nagad })
    } else if word == "rocket"@ {
        Some(TenderMethod::MobileWallet { wallet: Wallet::Rocket })
    } else if word == "upay"@ {
        Some(TenderMethod::MobileWallet { wallet: Wallet::Upay })
    } else if word == "stc_pay"@ {
        Some(TenderMethod::MobileWallet { wallet: Wallet::StcPay })
    } else if word == "bank_transfer"@ {
        Some(TenderMethod::BankTransfer)
    } else if word == "store_credit"@ {
        Some(TenderMethod::StoreCredit)
    } else {
        None
    }
}

/// Read how a tender was paid, refusing any other word.
pub fn tender_method(method: &str) -> (r: Result<TenderMethod, CommandError>)
    ensures
        match tender_method_named(method@) {
            Some(named) => r == Ok::<TenderMethod, CommandError>(named),
            None => refuses_naming(r, "bad_tender"@, "unknown tender method: "@, method@),
        },
{
    if str_eq(method, "cash") {
        Ok(TenderMethod::Cash)
    } else if str_eq(method, "card") {
        Ok(TenderMethod::Card)
    } else if str_eq(method, "bkash") {
        Ok(TenderMethod::MobileWallet { wallet: Wallet::Bkash })
    } else if str_eq(method, "nagad") {
        Ok(TenderMethod::MobileWallet { wallet: Wallet::Nagad })
    } else if str_eq(method, "rocket") {
        Ok(TenderMethod::MobileWallet { wallet: Wallet::Rocket })
    } else if str_eq(method, "upay") {
        Ok(TenderMethod::MobileWallet { wallet: Wallet::Upay })
    } else if str_eq(method, "stc_pay") {
        Ok(TenderMethod::MobileWallet { wallet: Wallet::StcPay })
    } else if str_eq(method, "bank_transfer") {
        Ok(TenderMethod::BankTransfer)
    } else if str_eq(method, "store_credit") {
        Ok(TenderMethod::StoreCredit)
    } else {
        Err(refused_naming("bad_tender", "unknown tender method: ", method))
    }
}

/// How the sell screen labels a tender.
pub open spec fn method_label_text(method: TenderMethod) -> Seq<char> {
    match method {
        TenderMethod::Cash => "cash"@,
        TenderMethod::Card => "card"@,
        TenderMethod::MobileWallet { wallet } => match wallet {
            Wallet::Bkash => "bkash"@,
            Wallet::Nagad => "nagad"@,
            Wallet::Rocket => "rocket"@,
            Wallet::Upay => "upay"@,
            Wallet::StcPay => "stcpay"@,
        },
        TenderMethod::BankTransfer => "bank_transfer"@,
        TenderMethod::StoreCredit => "store_credit"@,
    }
}

/// The label the sell screen shows for a tender: a wallet by its own name, in lower case.
pub fn method_label(method: TenderMethod) -> (r: &'static str)
    ensures
        r@ == method_label_text(method),
{
    match method {
        TenderMethod::Cash => "cash",
        TenderMethod::Card => "card",
        TenderMethod::MobileWallet { wallet } => match wallet {
            Wallet::Bkash => "bkash",
            Wallet::Nagad => "nagad",
            Wallet::Rocket => "rocket",
            Wallet::Upay => "upay",
            Wallet::StcPay => "stcpay",
        },
        TenderMethod::BankTransfer => "bank_transfer",
        TenderMethod::StoreCredit => "store_credit",
    }
}

/// How a receipt prints a tender.
pub open spec fn tender_label_text(method: TenderMethod) -> Seq<char> {
    match method {
        TenderMethod::Cash => "Cash"@,
        TenderMethod::Card => "Card"@,
        TenderMethod::MobileWallet { wallet } => match wallet {
            Wallet::Bkash => "Bkash"@,
            Wallet::Nagad => "Nagad"@,
            Wallet::Rocket => "Rocket"@,
            Wallet::Upay => "Upay"@,
            Wallet::StcPay => "StcPay"@,
        },
        TenderMethod::BankTransfer => "Bank transfer"@,
        TenderMethod::StoreCredit => "Store credit"@,
    }
}

/// The label a receipt prints for a tender.
pub fn tender_label(method: TenderMethod) -> (r: &'static str)
    ensures
        r@ == tender_label_text(method),
{
    match method {
        TenderMethod::Cash => "Cash",
        TenderMethod::Card => "Card",
        TenderMethod::MobileWallet { wallet } => match wallet {
            Wallet::Bkash => "Bkash",
            Wallet::Nagad => "Nagad",
            Wallet::Rocket => "Rocket",
            Wallet::Upay => "Upay",
            Wallet::StcPay => "StcPay",
        },
        TenderMethod::BankTransfer => "Bank transfer",
        TenderMethod::StoreCredit => "Store credit",
    }
}

/// How an outlet trades.
#[derive(Debug, Clone, Copy, PartialEq, Eq)]
pub enum Profile {
    Retail,
    Cafe,
    Grocery,
}

pub open spec fn profile_named(word: Seq<char>) -> Option<Profile> {
    if word == "retail"@ {
        Some(Profile::Retail)
    } else if word == "cafe"@ {
        Some(Profile::Cafe)
    } else if word == "grocery"@ {
        Some(Profile::Grocery)
    } else {
        None
    }
}

/// Read the profile the setup screen names, refusing any other word.
pub fn outlet_profile(profile: &str) -> (r: Result<Profile, CommandError>)
    ensures
        match profile_named(profile@) {
            Some(named) => r == Ok::<Profile, CommandError>(named),
            None => refuses(r, "bad_profile"@, profile@, " is not a profile"@),
        },
{
    if str_eq(profile, "retail") {
        Ok(Profile::Retail)
    } else if str_eq(profile, "cafe") {
        Ok(Profile::Cafe)
    } else if str_eq(profile, "grocery") {
        Ok(Profile::Grocery)
    } else {
        Err(refused("bad_profile", profile, " is not a profile"))
    }
}

} // verus!
