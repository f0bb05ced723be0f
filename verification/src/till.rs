//! The till: why it refuses things, which demo shop it can conjure, and the generator that fills
//! a demo basket.
//!
//! The sale, shift, stock and tax rules themselves belong to the point-of-sale domain the till is
//! built on; here each of its refusals is carried as the sentence it produces.

use vstd::prelude::*;
use crate::codec::{uuid_chars, uuid_string};
use crate::store::{StoreError, store_message};
use crate::text::str_eq;

verus! {

/// Why the till refused an action.
///
/// A refusal from one of the domain's books carries the sentence that book gave for it.
#[derive(Debug, Clone, PartialEq, Eq)]
pub enum TerminalError {
    Sale(String),
    Shift(String),
    Inventory(String),
    Directory(String),
    Purchase(String),
    Fiscal(String),
    Outlet(String),
    Catalogue(String),
    Floor(String),
    Scale(String),
    Weigh(String),
    FiscalDocument(String),
    NotInvoiced { sale_id: u128 },
    UnknownOrder { order_id: u128 },
    /// Nobody signed in, or the PIN did not match. Deliberately one variant: the UI shows the same
    /// message either way, and splitting it invites a screen that leaks which half was wrong.
    NotAuthorized,
    /// The action needs approval and no active account holds it.
    NoApprover,
    /// No role carries this at all, so no PIN would help.
    Denied,
    NoOpenShift,
    /// A second shift cannot start while one is running on this device — the drawer is physical
    /// and there is only one of it.
    ShiftAlreadyOpen,
    Store(StoreError),
    /// The event log refused an event; the text is its reason.
    Event(String),
    UnknownSale { sale_id: u128 },
    /// Another device holds this ticket and is still working on it.
    TicketHeld { sale_id: u128, holder: u128 },
    /// The stored log did not verify on load. Not recoverable at the till: the device must sync
    /// what it can and be re-enrolled, because nothing it reports afterwards can be trusted.
    CorruptLog { reason: String },
}

/// What a refusal says to a person.
pub open spec fn terminal_message(error: TerminalError) -> Seq<char> {
    match error {
        TerminalError::Sale(text) => text@,
        TerminalError::Shift(text) => text@,
        TerminalError::Inventory(text) => text@,
        TerminalError::Directory(text) => text@,
        TerminalError::Purchase(text) => text@,
        TerminalError::Fiscal(text) => text@,
        TerminalError::Outlet(text) => text@,
        TerminalError::Catalogue(text) => text@,
        TerminalError::Floor(text) => text@,
        TerminalError::Scale(text) => text@,
        TerminalError::Weigh(text) => text@,
        TerminalError::FiscalDocument(text) => text@,
        TerminalError::NotInvoiced { sale_id } => "sale "@ + uuid_chars(sale_id) + " has not been invoiced"@,
        TerminalError::UnknownOrder { order_id } => "no purchase order "@ + uuid_chars(order_id),
        TerminalError::NotAuthorized => "that PIN was not accepted"@,
        TerminalError::NoApprover => "nobody at this outlet can approve that"@,
        TerminalError::Denied => "nobody with that role may do this"@,
        TerminalError::NoOpenShift => "no shift is open"@,
        TerminalError::ShiftAlreadyOpen => "a shift is already open on this till"@,
        TerminalError::Store(error) => store_message(error),
        TerminalError::Event(text) => "event log error: "@ + text@,
        TerminalError::UnknownSale { sale_id } => "no sale "@ + uuid_chars(sale_id),
        TerminalError::TicketHeld { sale_id, .. } => "ticket "@ + uuid_chars(sale_id) + " is held by another device"@,
        TerminalError::CorruptLog { reason } => "the local event log failed verification: "@ + reason@,
    }
}

/// A sentence made of a fixed start, an id, and a fixed end.
fn around_id(start: &str, id: u128, end: &str) -> (r: String)
    ensures
        r@ == start@ + uuid_chars(id) + end@,
{
    let mut text = start.to_owned();
    let id_text = uuid_string(id);
    text.append(id_text.as_str());
    text.append(end);
    text
}

impl TerminalError {
    /// The refusal as a sentence.
    pub fn message(&self) -> (r: String)
        ensures
            r@ == terminal_message(*self),
    {
        match self {
            TerminalError::Sale(text) => text.clone(),
            TerminalError::Shift(text) => text.clone(),
            TerminalError::Inventory(text) => text.clone(),
            TerminalError::Directory(text) => text.clone(),
            TerminalError::Purchase(text) => text.clone(),
            TerminalError::Fiscal(text) => text.clone(),
            TerminalError::Outlet(text) => text.clone(),
            TerminalError::Catalogue(text) => text.clone(),
            TerminalError::Floor(text) => text.clone(),
            TerminalError::Scale(text) => text.clone(),
            TerminalError::Weigh(text) => text.clone(),
            TerminalError::FiscalDocument(text) => text.clone(),
            TerminalError::NotInvoiced { sale_id } => around_id("sale ", *sale_id, " has not been invoiced"),
            TerminalError::UnknownOrder { order_id } => {
                proof {
                    reveal_strlit("");
                }
                around_id("no purchase order ", *order_id, "")
            },
            TerminalError::NotAuthorized => "that PIN was not accepted".to_owned(),
            TerminalError::NoApprover => "nobody at this outlet can approve that".to_owned(),
            TerminalError::Denied => "nobody with that role may do this".to_owned(),
            TerminalError::NoOpenShift => "no shift is open".to_owned(),
            TerminalError::ShiftAlreadyOpen => "a shift is already open on this till".to_owned(),
            TerminalError::Store(error) => error.message(),
            TerminalError::Event(text) => {
                let mut message = "event log error: ".to_owned();
                message.append(text.as_str());
                message
            },
            TerminalError::UnknownSale { sale_id } => {
                proof {
                    reveal_strlit("");
                }
                around_id("no sale ", *sale_id, "")
            },
            TerminalError::TicketHeld { sale_id, .. } => around_id("ticket ", *sale_id, " is held by another device"),
            TerminalError::CorruptLog { reason } => {
                let mut message = "the local event log failed verification: ".to_owned();
                message.append(reason.as_str());
                message
            },
        }
    }
}

// ---------------------------------------------------------------------------------------------
// Demo shops
// ---------------------------------------------------------------------------------------------

/// Which shop to conjure.
#[derive(Debug, Clone, Copy, PartialEq, Eq)]
pub enum Market {
    /// A Dhaka grocery: taka, Mushak 6.3, a counter scale printing weight labels.
    Bangladesh,
    /// A Riyadh café: riyals, ZATCA Phase 1, tables and prep stations.
    Gulf,
}

impl Market {
    /// Parse the label the settings screen sends.
    ///
    /// Anything else is refused rather than defaulted to a market — seeding the wrong country's tax
    /// setup would be discovered on a challan.
    pub fn from_label(label: &str) -> (r: Result<Market, TerminalError>)
        ensures
            label@ == "bangladesh"@ ==> r == Ok::<Market, TerminalError>(Market::Bangladesh),
            label@ == "gulf"@ ==> r == Ok::<Market, TerminalError>(Market::Gulf),
            label@ != "bangladesh"@ && label@ != "gulf"@ ==> r == Err::<Market, TerminalError>(TerminalError::Denied),
    {
        proof {
            reveal_strlit("bangladesh");
            reveal_strlit("gulf");
            assert("gulf"@.len() != "bangladesh"@.len());
        }
        if str_eq(label, "bangladesh") {
            Ok(Market::Bangladesh)
        } else if str_eq(label, "gulf") {
            Ok(Market::Gulf)
        } else {
            Err(TerminalError::Denied)
        }
    }
}

/// The base every demo id is offset from, so seeded records are recognisable.
pub const SEED_ID_BASE: u128 = 0x5EED_0000_0000_0000;

/// The id of the demo shop's `index`th person.
pub fn staff_id(index: usize) -> (r: u128)
    ensures
        r == SEED_ID_BASE + 1 + index,
{
    (SEED_ID_BASE + 1) + index as u128
}

/// Where a market's demo products are numbered from.
pub open spec fn product_base(market: Market) -> u128 {
    match market {
        Market::Bangladesh => 0x1000,
        Market::Gulf => 0x2000,
    }
}

/// Where a market's demo stock batches are numbered from.
pub open spec fn batch_base(market: Market) -> u128 {
    match market {
        Market::Bangladesh => 0x5000,
        Market::Gulf => 0x6000,
    }
}

/// The id of a market's `index`th demo product.
pub fn product_id(market: Market, index: usize) -> (r: u128)
    ensures
        r == SEED_ID_BASE + product_base(market) + index,
{
    let offset: u128 = match market {
        Market::Bangladesh => 0x1000,
        Market::Gulf => 0x2000,
    };
    SEED_ID_BASE + offset + index as u128
}

/// The id of a market's `index`th demo stock batch.
pub fn batch_id(market: Market, index: usize) -> (r: u128)
    ensures
        r == SEED_ID_BASE + batch_base(market) + index,
{
    let offset: u128 = match market {
        Market::Bangladesh => 0x5000,
        Market::Gulf => 0x6000,
    };
    SEED_ID_BASE + offset + index as u128
}

/// The id of the demo floor's `index`th table.
pub fn table_id(index: usize) -> (r: u128)
    ensures
        r == SEED_ID_BASE + 0x3000 + index,
{
    (SEED_ID_BASE + 0x3000) + index as u128
}

/// Demo ids never collide: within the first 4095 of each kind, people, tables, and each
/// market's products and batches are numbered apart.
pub proof fn law_demo_ids_are_distinct(market: Market, other: Market, i: usize, j: usize)
    requires
        i < 0xFFF,
        j < 0xFFF,
    ensures
        SEED_ID_BASE + 1 + i != SEED_ID_BASE + product_base(other) + j,
        SEED_ID_BASE + 1 + i != SEED_ID_BASE + batch_base(other) + j,
        SEED_ID_BASE + 1 + i != SEED_ID_BASE + 0x3000 + j,
        SEED_ID_BASE + 0x3000 + i != SEED_ID_BASE + product_base(other) + j,
        SEED_ID_BASE + 0x3000 + i != SEED_ID_BASE + batch_base(other) + j,
        SEED_ID_BASE + product_base(market) + i != SEED_ID_BASE + batch_base(other) + j,
        market != other ==> SEED_ID_BASE + product_base(market) + i != SEED_ID_BASE + product_base(other) + j,
        market != other ==> SEED_ID_BASE + batch_base(market) + i != SEED_ID_BASE + batch_base(other) + j,
{
}

/// A clock for the demo shop that moves a second per event, so every seeded event has its own
/// instant and a feed sorted by time is not arbitrary.
#[derive(Debug, Clone, Copy, PartialEq, Eq)]
pub struct Clock {
    at: i64,
}

impl View for Clock {
    type V = i64;

    closed spec fn view(&self) -> i64 {
        self.at
    }
}

impl Clock {
    pub fn new(at_millis: i64) -> (r: Clock)
        ensures
            r@ == at_millis,
    {
        Clock { at: at_millis }
    }

    /// Move on a second (saturating) and read the new instant.
    pub fn tick(&mut self) -> (r: i64)
        ensures
            r == final(self)@,
            final(self)@ == if old(self)@ <= i64::MAX - 1000 { old(self)@ + 1000 } else { i64::MAX as int },
    {
        self.at = if self.at <= i64::MAX - 1000 { self.at + 1000 } else { i64::MAX };
        self.at
    }

    pub fn now(&self) -> (r: i64)
        ensures
            r == self@,
    {
        self.at
    }
}

/// The multiplier of the demo generator.
pub const LCG_MULTIPLIER: u64 = 6_364_136_223_846_793_005;
/// The increment of the demo generator.
pub const LCG_INCREMENT: u64 = 1_442_695_040_888_963_407;

/// One step of the demo generator: multiply and add, wrapping at 2⁶⁴.
pub open spec fn lcg_next(state: u64) -> u64 {
    vstd::wrapping::u64_specs::wrapping_add(vstd::wrapping::u64_specs::wrapping_mul(state, LCG_MULTIPLIER), LCG_INCREMENT)
}

/// The draw a step to `state` yields below `bound`: the state's top 31 bits, reduced.
pub open spec fn lcg_draw(state: u64, bound: u32) -> u32 {
    if bound == 0 { 0 } else { ((state as int / 0x2_0000_0000) % (bound as int)) as u32 }
}

/// A tiny linear congruential generator.
///
/// Not for security — for a basket that looks like a basket. Seeded by a constant so the demo shop
/// is the same shop every time, and the first thing anybody does with demo data is compare two
/// screens showing it.
#[derive(Debug, Clone, Copy, PartialEq, Eq)]
pub struct Lcg {
    state: u64,
}

impl View for Lcg {
    type V = u64;

    closed spec fn view(&self) -> u64 {
        self.state
    }
}

impl Lcg {
    pub fn new(seed: u64) -> (r: Lcg)
        ensures
            r@ == seed,
    {
        Lcg { state: seed }
    }

    /// The next draw, below `bound` (zero when `bound` is zero).
    pub fn below(&mut self, bound: u32) -> (r: u32)
        ensures
            final(self)@ == lcg_next(old(self)@),
            r == lcg_draw(final(self)@, bound),
            bound > 0 ==> r < bound,
    {
        self.state = self.state.wrapping_mul(LCG_MULTIPLIER).wrapping_add(LCG_INCREMENT);
        if bound == 0 {
            return 0;
        }
        let state = self.state;
        let top = state >> 33;
        assert(top == state / 0x2_0000_0000) by (bit_vector)
            requires
                top == state >> 33,
        ;
        let high = top as u32;
        high % bound
    }
}

// ---------------------------------------------------------------------------------------------
// Shifts, approval and tickets: who may act
// ---------------------------------------------------------------------------------------------

/// Where a shift event goes.
#[derive(Debug, Clone, Copy, PartialEq, Eq)]
pub enum ShiftStep {
    /// Applied to the shift running on this till.
    ApplyToRunning,
    /// Starts a fresh shift: a closed shift is history, and opening the next one never revives it.
    StartFresh,
}

/// Route a shift event: one drawer, so at most one open shift, and nothing but opening happens
/// without one.
pub fn shift_step(shift_open: bool, opening: bool) -> (r: Result<ShiftStep, TerminalError>)
    ensures
        r == if shift_open {
            if opening { Err(TerminalError::ShiftAlreadyOpen) } else { Ok(ShiftStep::ApplyToRunning) }
        } else {
            if opening { Ok(ShiftStep::StartFresh) } else { Err(TerminalError::NoOpenShift) }
        },
{
    if shift_open {
        if opening {
            Err(TerminalError::ShiftAlreadyOpen)
        } else {
            Ok(ShiftStep::ApplyToRunning)
        }
    } else if opening {
        Ok(ShiftStep::StartFresh)
    } else {
        Err(TerminalError::NoOpenShift)
    }
}

/// What checking a PIN against the staff directory found.
#[derive(Debug, Clone, Copy, PartialEq, Eq)]
pub enum SignIn {
    Accepted { staff_id: u128 },
    /// Nobody holds what was asked for.
    Unknown,
    WrongPin,
    Inactive,
}

/// The approver a PIN check yields: nobody holding the permission at all is told apart from a
/// wrong PIN, and a wrong PIN and an inactive account read the same.
pub fn approver(found: SignIn) -> (r: Result<u128, TerminalError>)
    ensures
        r == match found {
            SignIn::Accepted { staff_id } => Ok(staff_id),
            SignIn::Unknown => Err(TerminalError::NoApprover),
            _ => Err(TerminalError::NotAuthorized),
        },
{
    match found {
        SignIn::Accepted { staff_id } => Ok(staff_id),
        SignIn::Unknown => Err(TerminalError::NoApprover),
        SignIn::WrongPin | SignIn::Inactive => Err(TerminalError::NotAuthorized),
    }
}

/// Who signs in: one person, and any failure is the same refusal so a screen cannot leak which
/// half was wrong.
pub fn signed_in(found: SignIn) -> (r: Result<u128, TerminalError>)
    ensures
        r == match found {
            SignIn::Accepted { staff_id } => Ok(staff_id),
            _ => Err(TerminalError::NotAuthorized),
        },
{
    match found {
        SignIn::Accepted { staff_id } => Ok(staff_id),
        _ => Err(TerminalError::NotAuthorized),
    }
}

/// The domain's answer for whether a person may do something unaided.
#[derive(Debug, Clone, Copy, PartialEq, Eq)]
pub enum Authorization {
    Allowed,
    NeedsApproval,
    Denied,
}

/// Who authorises an action.
#[derive(Debug, Clone, Copy, PartialEq, Eq)]
pub enum Authorizer {
    /// The person at the till, recorded under their own name.
    Themselves { staff_id: u128 },
    /// Somebody senior must type their own PIN.
    Approver,
}

/// Decide who authorises an action given who is signed in and the domain's verdict for them.
/// With nobody signed in it falls through to approval, so an unattended till is as strict as
/// ever; a refusal is refused whoever asks.
pub fn authorizer(session: Option<(u128, Authorization)>) -> (r: Result<Authorizer, TerminalError>)
    ensures
        r == match session {
            Some((staff_id, Authorization::Allowed)) => Ok(Authorizer::Themselves { staff_id }),
            Some((_, Authorization::Denied)) => Err(TerminalError::Denied),
            _ => Ok(Authorizer::Approver),
        },
{
    match session {
        Some((staff_id, Authorization::Allowed)) => Ok(Authorizer::Themselves { staff_id }),
        Some((_, Authorization::Denied)) => Err(TerminalError::Denied),
        _ => Ok(Authorizer::Approver),
    }
}

/// Whether this till may write to a ticket: opening or claiming is always let through (a contest
/// is settled once both reach the server), and otherwise only a ticket no active sibling holds.
pub fn may_write(sale_id: u128, opens_or_claims: bool, held_by: Option<u128>) -> (r: Result<(), TerminalError>)
    ensures
        r == if opens_or_claims {
            Ok::<(), TerminalError>(())
        } else {
            match held_by {
                Some(holder) => Err(TerminalError::TicketHeld { sale_id, holder }),
                None => Ok(()),
            }
        },
{
    if opens_or_claims {
        return Ok(());
    }
    match held_by {
        Some(holder) => Err(TerminalError::TicketHeld { sale_id, holder }),
        None => Ok(()),
    }
}

} // verus!
