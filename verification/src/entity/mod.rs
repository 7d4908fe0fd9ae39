//! Status and classification vocabularies of the ledger entities.

pub mod account_subtype;
pub mod account_type;
pub mod normal_balance;
pub mod journal_type;
pub mod journal_source;
pub mod journal_status;
pub mod period_status;
pub mod posting_source_type;
pub mod posting_type;
pub mod reconcile_origin;
pub mod reconciliation_item_status;
pub mod reconciliation_status;
pub mod reconciliation_type;
pub mod statement_status;
pub mod statement_type;
pub mod bank_check_sequence;
pub mod emv_qr_config;
pub mod full_reconcile;
pub mod journal_line;
pub mod partial_reconcile;
pub mod printed_check;
pub mod reconciliation_item;
pub mod tax_tag_repair_run;
pub mod cost_center;
pub mod financial_statement;
pub mod journal;
pub mod ledger;
pub mod reconciliation;
