use sahl::cli::{
    Command, StaffRole, TokenScope, command_of, dashboard_request, skew_seconds, staff_request,
    stored_ttl_seconds, token_request,
};
use sahl::commands::{
    Capability, CashMovementReason, CloseReason, CommandError, Embedded, IssueReason, PaperWidth, Profile,
    Severity, SyncView, TaxClassKind, TaxTreatment, TenderMethod, TicketKind, VoidReason, Wallet,
    capability_label, cash_reason, close_reason, embedded_label, issue_reason, method_label, non_empty,
    outlet_profile, paper_width, severity_label, staff_role, tax_class, tax_class_label, tender_label,
    tender_method, ticket_kind_label, void_reason,
};
use sahl::scheduler::SyncStatus;
use sahl::store::StoreError;
use sahl::till::{
    Authorization, Authorizer, Clock, Lcg, Market, ShiftStep, SignIn, TerminalError, approver, authorizer,
    batch_id, may_write, product_id, shift_step, signed_in, staff_id, table_id,
};

#[test]
fn an_unknown_market_is_refused_rather_than_defaulted() {
    // Seeding the wrong country's tax setup would be discovered on a challan.
    assert!(Market::from_label("france").is_err());
    assert_eq!(Market::from_label("bangladesh"), Ok(Market::Bangladesh));
    assert_eq!(Market::from_label("gulf"), Ok(Market::Gulf));
    assert_eq!(Market::from_label("Gulf"), Err(TerminalError::Denied));
}

#[test]
fn the_demo_generator_is_a_fixed_sequence() {
    let mut lcg = Lcg::new(7);
    let state = 7u64
        .wrapping_mul(6_364_136_223_846_793_005)
        .wrapping_add(1_442_695_040_888_963_407);
    assert_eq!(lcg.below(10), ((state >> 33) as u32) % 10);

    let mut first = Lcg::new(42);
    let mut second = Lcg::new(42);
    for bound in [3, 10, 100, 7] {
        let drawn = first.below(bound);
        assert_eq!(drawn, second.below(bound));
        assert!(drawn < bound);
    }
    assert_eq!(first.below(0), 0);
}

#[test]
fn every_refusal_has_a_code_the_ui_branches_on() {
    let cases = [
        (TerminalError::CorruptLog { reason: "bad".to_owned() }, "corrupt_log"),
        (TerminalError::UnknownSale { sale_id: 1 }, "unknown_sale"),
        (TerminalError::TicketHeld { sale_id: 1, holder: 2 }, "ticket_held"),
        (TerminalError::Store(StoreError::Database("locked".to_owned())), "storage"),
        (TerminalError::Event("bad".to_owned()), "event"),
        (TerminalError::Scale("bad".to_owned()), "bad_scan"),
        (TerminalError::Sale("overtender".to_owned()), "rejected"),
        (TerminalError::Weigh("bad".to_owned()), "rejected"),
        (TerminalError::NotInvoiced { sale_id: 1 }, "not_invoiced"),
        (TerminalError::UnknownOrder { order_id: 1 }, "unknown_order"),
        (TerminalError::NotAuthorized, "not_authorized"),
        (TerminalError::NoApprover, "no_approver"),
        (TerminalError::NoOpenShift, "no_open_shift"),
        (TerminalError::ShiftAlreadyOpen, "shift_already_open"),
    ];
    for (error, code) in cases {
        assert_eq!(CommandError::from_error(&error).code, code);
    }
}

#[test]
fn a_refusal_reads_as_a_sentence_not_a_type_name() {
    assert_eq!(
        CommandError::from_error(&TerminalError::NotAuthorized).message,
        "that PIN was not accepted"
    );
    assert_eq!(
        CommandError::from_error(&TerminalError::Sale("cannot overtender by card".to_owned())).message,
        "cannot overtender by card"
    );
    assert_eq!(
        TerminalError::UnknownSale { sale_id: 5 }.message(),
        format!("no sale {}", uuid::Uuid::from_u128(5))
    );
    assert_eq!(
        TerminalError::NotInvoiced { sale_id: 5 }.message(),
        format!("sale {} has not been invoiced", uuid::Uuid::from_u128(5))
    );
    assert_eq!(
        TerminalError::Store(StoreError::SequenceBreak { tip: 1, found: 3 }).message(),
        "cannot append sequence 3; the chain is at 1"
    );
    assert_eq!(
        TerminalError::CorruptLog { reason: "hash".to_owned() }.message(),
        "the local event log failed verification: hash"
    );
    let poisoned = CommandError::poisoned();
    assert_eq!(poisoned.code, "poisoned");
    assert_eq!(poisoned.message, "the till is in an inconsistent state and must be restarted");
}

#[test]
fn a_shop_without_sync_is_not_broken() {
    assert_eq!(SyncView::of(None), SyncView::Disabled);
    assert_eq!(
        SyncView::of(Some(SyncStatus::Retrying { unsynced: 2, attempts: 3 })),
        SyncView::Retrying { unsynced: 2, attempts: 3 }
    );
    assert_eq!(
        SyncView::of(Some(SyncStatus::Stopped { reason: "revoked".to_owned() })),
        SyncView::Stopped { reason: "revoked".to_owned() }
    );
    assert_eq!(
        SyncView::of(Some(SyncStatus::UpToDate { unsynced: 0 })),
        SyncView::UpToDate { unsynced: 0 }
    );
}

#[test]
fn a_wrong_paper_width_is_refused_rather_than_guessed() {
    assert_eq!(paper_width("mm58"), Ok(PaperWidth::Mm58));
    assert_eq!(paper_width("mm80"), Ok(PaperWidth::Mm80));
    let refused = paper_width("a4").unwrap_err();
    assert_eq!(refused.code, "bad_paper");
    assert_eq!(refused.message, "a4 is not a paper width");
}

#[test]
fn screens_are_given_fixed_labels() {
    assert_eq!(embedded_label(Embedded::Weight), "weight");
    assert_eq!(embedded_label(Embedded::Price), "price");
    assert_eq!(ticket_kind_label(TicketKind::Order), "order");
    assert_eq!(ticket_kind_label(TicketKind::Cancellation), "cancellation");
    assert_eq!(tax_class_label(TaxClassKind::Standard), "standard");
    assert_eq!(tax_class_label(TaxClassKind::ZeroRated), "zero_rated");
    assert_eq!(tax_class_label(TaxClassKind::Exempt), "exempt");
}

// ---------------------------------------------------------------------------------------------
// The server's command line
// ---------------------------------------------------------------------------------------------

const OUTLET: &str = "00000000-0000-0000-0000-000000000007";

#[test]
fn the_first_argument_picks_the_job() {
    assert_eq!(command_of(Some("migrate")), Command::Migrate);
    assert_eq!(command_of(Some("issue-token")), Command::IssueToken);
    assert_eq!(command_of(Some("add-staff")), Command::AddStaff);
    assert_eq!(command_of(Some("issue-dashboard-token")), Command::IssueDashboardToken);
    assert_eq!(command_of(Some("serve")), Command::Serve);
    assert_eq!(command_of(None), Command::Serve);
    assert_eq!(skew_seconds(300), 300);
    assert_eq!(skew_seconds(u64::MAX), 300);
}

#[test]
fn an_enrollment_token_lasts_fifteen_minutes_unless_told_otherwise() {
    assert_eq!(token_request(Some(OUTLET), None), Ok((7, 900)));
    assert_eq!(token_request(Some(OUTLET), Some("60")), Ok((7, 60)));
    assert_eq!(token_request(Some(OUTLET), Some("soon")), Err("ttl-seconds must be a number".to_owned()));
    assert_eq!(token_request(Some("seven"), None), Err("outlet id must be a UUID".to_owned()));
    assert_eq!(
        token_request(None, None),
        Err("usage: sahl-server issue-token <outlet-id> [ttl-seconds]".to_owned())
    );
    assert_eq!(stored_ttl_seconds(60), 60);
    assert_eq!(stored_ttl_seconds(i64::MAX), 900);
}

#[test]
fn a_tenant_wide_dashboard_token_is_spelled_out() {
    let tenant = format!("tenant:{OUTLET}");
    assert_eq!(
        dashboard_request(Some(&tenant), Some(" phone ")),
        Ok((TokenScope::Tenant(7), "phone".to_owned()))
    );
    assert_eq!(
        dashboard_request(Some(OUTLET), Some("phone")),
        Ok((TokenScope::Outlet(7), "phone".to_owned()))
    );
    assert_eq!(
        dashboard_request(Some(OUTLET), Some("  ")),
        Err("a token needs a label, so the right one can be revoked later".to_owned())
    );
    assert_eq!(
        dashboard_request(Some("tenant:nope"), Some("phone")),
        Err("tenant id must be a UUID".to_owned())
    );
    assert_eq!(
        dashboard_request(Some(OUTLET), None),
        Err("usage: sahl-server issue-dashboard-token <outlet-id|tenant:TENANT-ID> <label>".to_owned())
    );
}

#[test]
fn a_staff_member_needs_a_known_role_and_a_name() {
    let added = staff_request(Some(OUTLET), Some("cashier"), Some(" Ruma ")).expect("valid");
    assert_eq!(added.outlet_id, 7);
    assert_eq!(added.role, StaffRole::Cashier);
    assert_eq!(added.name, "Ruma");
    assert_eq!(
        staff_request(Some(OUTLET), Some("chef"), Some("Ruma")),
        Err("unknown role \"chef\"; expected owner|manager|cashier".to_owned())
    );
    assert_eq!(
        staff_request(Some(OUTLET), Some("owner"), Some(" ")),
        Err("a staff name cannot be blank".to_owned())
    );
    assert_eq!(StaffRole::Owner.scope(7), None);
    assert_eq!(StaffRole::Manager.scope(7), Some(7));
    assert_eq!(StaffRole::Cashier.label(), "cashier");
}

#[test]
fn a_screen_word_is_refused_rather_than_defaulted() {
    assert_eq!(cash_reason("skim"), Ok(CashMovementReason::Skim));
    assert_eq!(cash_reason("float_top_up"), Ok(CashMovementReason::FloatTopUp));
    let refused = cash_reason("tip").unwrap_err();
    assert_eq!(refused.code, "unknown_reason");
    assert_eq!(refused.message, "tip is not a cash movement reason");

    assert_eq!(issue_reason("wastage"), Ok(IssueReason::Wastage));
    assert_eq!(issue_reason("stolen").unwrap_err().message, "stolen is not a stock issue reason");

    assert_eq!(close_reason("short_shipped"), Ok(CloseReason::ShortShipped));
    assert_eq!(close_reason("lost").unwrap_err().message, "lost is not a reason to close an order");

    assert_eq!(staff_role("manager"), Ok(StaffRole::Manager));
    let bad_role = staff_role("chef").unwrap_err();
    assert_eq!(bad_role.code, "bad_role");
    assert_eq!(bad_role.message, "chef is not a role");

    assert_eq!(tax_class("standard", 1500), Ok(TaxTreatment::Standard { basis_points: 1500 }));
    assert_eq!(tax_class("exempt", 1500), Ok(TaxTreatment::Exempt));
    let bad_tax = tax_class("reduced", 500).unwrap_err();
    assert_eq!(bad_tax.code, "bad_tax_class");
    assert_eq!(bad_tax.message, "reduced is not a tax treatment");
}

#[test]
fn a_blank_field_is_absent() {
    assert_eq!(non_empty("   ".to_owned()), None);
    assert_eq!(non_empty(" Table 4 ".to_owned()), Some("Table 4".to_owned()));
    assert_eq!(severity_label(Severity::Alert), "alert");
    assert_eq!(capability_label(Capability::SplitBills), "split_bills");
}

#[test]
fn one_drawer_means_one_open_shift() {
    assert_eq!(shift_step(true, true), Err(TerminalError::ShiftAlreadyOpen));
    assert_eq!(shift_step(true, false), Ok(ShiftStep::ApplyToRunning));
    assert_eq!(shift_step(false, true), Ok(ShiftStep::StartFresh));
    assert_eq!(shift_step(false, false), Err(TerminalError::NoOpenShift));
}

#[test]
fn a_wrong_pin_and_an_inactive_account_read_the_same() {
    assert_eq!(approver(SignIn::Accepted { staff_id: 4 }), Ok(4));
    assert_eq!(approver(SignIn::Unknown), Err(TerminalError::NoApprover));
    assert_eq!(approver(SignIn::WrongPin), Err(TerminalError::NotAuthorized));
    assert_eq!(approver(SignIn::Inactive), Err(TerminalError::NotAuthorized));
    assert_eq!(signed_in(SignIn::Unknown), Err(TerminalError::NotAuthorized));
    assert_eq!(signed_in(SignIn::Accepted { staff_id: 9 }), Ok(9));
}

#[test]
fn an_unattended_till_is_as_strict_as_ever() {
    assert_eq!(authorizer(None), Ok(Authorizer::Approver));
    assert_eq!(authorizer(Some((3, Authorization::Allowed))), Ok(Authorizer::Themselves { staff_id: 3 }));
    assert_eq!(authorizer(Some((3, Authorization::NeedsApproval))), Ok(Authorizer::Approver));
    assert_eq!(authorizer(Some((3, Authorization::Denied))), Err(TerminalError::Denied));
}

#[test]
fn a_ticket_held_by_a_sibling_is_not_written_to() {
    assert_eq!(may_write(10, false, Some(77)), Err(TerminalError::TicketHeld { sale_id: 10, holder: 77 }));
    assert_eq!(may_write(10, true, Some(77)), Ok(()));
    assert_eq!(may_write(10, false, None), Ok(()));
}

#[test]
fn demo_records_have_fixed_recognisable_ids() {
    assert_eq!(staff_id(0), 0x5EED_0000_0000_0001);
    assert_eq!(product_id(Market::Bangladesh, 2), 0x5EED_0000_0000_1002);
    assert_eq!(product_id(Market::Gulf, 2), 0x5EED_0000_0000_2002);
    assert_eq!(batch_id(Market::Gulf, 0), 0x5EED_0000_0000_6000);
    assert_eq!(table_id(4), 0x5EED_0000_0000_3004);
}

#[test]
fn the_demo_clock_gives_every_event_its_own_second() {
    let mut clock = Clock::new(1_000);
    assert_eq!(clock.tick(), 2_000);
    assert_eq!(clock.tick(), 3_000);
    assert_eq!(clock.now(), 3_000);
    let mut late = Clock::new(i64::MAX - 10);
    assert_eq!(late.tick(), i64::MAX);
}

#[test]
fn a_void_needs_a_real_reason() {
    assert_eq!(void_reason("damaged"), Ok(VoidReason::Damaged));
    let refused = void_reason("because").unwrap_err();
    assert_eq!(refused.code, "bad_reason");
    assert_eq!(refused.message, "unknown void reason: because");
}

#[test]
fn a_tender_is_taken_by_a_known_method_and_labelled_for_screen_and_paper() {
    let wallet = tender_method("stc_pay").expect("known");
    assert_eq!(wallet, TenderMethod::MobileWallet { wallet: Wallet::StcPay });
    assert_eq!(method_label(wallet), "stcpay");
    assert_eq!(tender_label(wallet), "StcPay");
    assert_eq!(tender_method("bank_transfer"), Ok(TenderMethod::BankTransfer));
    assert_eq!(tender_label(TenderMethod::BankTransfer), "Bank transfer");
    let refused = tender_method("cheque").unwrap_err();
    assert_eq!(refused.code, "bad_tender");
    assert_eq!(refused.message, "unknown tender method: cheque");
}

#[test]
fn an_outlet_trades_under_a_known_profile() {
    assert_eq!(outlet_profile("cafe"), Ok(Profile::Cafe));
    let refused = outlet_profile("bakery").unwrap_err();
    assert_eq!(refused.code, "bad_profile");
    assert_eq!(refused.message, "bakery is not a profile");
}
