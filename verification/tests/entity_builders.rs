use accounting_core::amount::Amount;
use accounting_core::entity::emv_qr_config::EmvQrConfig;
use accounting_core::entity::journal_line::JournalLine;
use accounting_core::entity::printed_check::PrintedCheck;
use accounting_core::entity::bank_check_sequence::BankCheckSequence;
use accounting_core::entity::journal::Journal;
use accounting_core::entity::journal_source::JournalSource;
use accounting_core::entity::journal_type::JournalType;

#[test]
fn journal_line_needs_its_required_fields_in_order() {
    assert_eq!(JournalLine::builder().build(9).unwrap_err(), "journal_id is required");
    let b = JournalLine::builder().journal_id(1).company_id(2).line_number(1).account_id(3);
    assert_eq!(b.clone().build(9).unwrap_err(), "account_number is required");
    assert_eq!(b.account_number("1100".into()).build(9).unwrap_err(), "account_name is required");
}

#[test]
fn journal_line_defaults() {
    let l = JournalLine::builder()
        .journal_id(1)
        .company_id(2)
        .line_number(1)
        .account_id(3)
        .account_number("1100".into())
        .account_name("Cash".into())
        .debit_amount(Amount::new(1500, 2))
        .build(42)
        .unwrap();
    assert_eq!(l.id, 42);
    assert_eq!((l.debit_amount.mantissa, l.debit_amount.scale), (1500, 2));
    assert_eq!((l.credit_amount.mantissa, l.credit_amount.scale), (0, 0));
    assert_eq!((l.exchange_rate.mantissa, l.exchange_rate.scale), (1, 0));
    assert_eq!(l.currency, "IDR");
    assert_eq!(l.tags, "[]");
    assert_eq!(l.data, "{}");
    assert!(!l.is_posted && !l.is_reconciled && !l.is_tax_line);
    assert_eq!(l.party_type, None);
}

#[test]
fn emv_qr_config_defaults_to_qris_indonesia() {
    assert_eq!(EmvQrConfig::builder().build(1, 0).unwrap_err(), "merchant_name is required");
    let c = EmvQrConfig::builder()
        .merchant_name("TOKO".into())
        .merchant_city("BANDUNG".into())
        .mcc("5999".into())
        .merchant_identifier("UME".into())
        .build(7, 1_700_000_000_000_000)
        .unwrap();
    assert_eq!((c.country_code.as_str(), c.gui.as_str(), c.currency.as_str()), ("ID", "ID.CO.QRIS.WWW", "IDR"));
    assert_eq!(c.initiation_method, "11");
    assert_eq!(c.created_at, 1_700_000_000_000_000);
    assert_eq!(c.updated_at, c.created_at);
}

#[test]
fn printed_check_and_sequence_builders() {
    assert_eq!(PrintedCheck::builder().bank_account_id(1).build(2, 0).unwrap_err(), "payment_id is required");
    let s = BankCheckSequence::builder().bank_account_id(5).build(6, 0).unwrap();
    assert_eq!((s.bank_account_id, s.next_number, s.numbering_mode.as_str(), s.metadata.as_str()), (5, 1, "", "{}"));
    let n = BankCheckSequence::new(1, 5, "auto".into(), 10, "{}".into(), 3);
    assert_eq!((n.id, n.next_number, n.created_at), (1, 10, 3));
}

#[test]
fn journal_builder_defaults_and_metadata() {
    assert_eq!(Journal::builder().company_id(1).build(2, "{}".into()).unwrap_err(), "journal_number is required");
    let j = Journal::builder()
        .company_id(1)
        .journal_number("JV-1".into())
        .transaction_date(739631)
        .description("Opening".into())
        .build(9, "{\"created_by\":null}".into())
        .unwrap();
    assert_eq!(j.journal_type, JournalType::General);
    assert_eq!(j.source, JournalSource::Manual);
    assert_eq!(j.currency, "IDR");
    assert_eq!((j.total_debit.mantissa, j.line_count), (0, 0));
    assert_eq!(j.metadata, "{\"created_by\":null}");
    assert_eq!(j.id, 9);
}
