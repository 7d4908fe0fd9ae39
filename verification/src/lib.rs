//! Verified core of a double-entry accounting module: money arithmetic, the
//! EMV merchant QR payload builder, chart-of-accounts validation, posting
//! validation and ledger planning, bank-statement matching, period close,
//! check numbering, reporting aggregates and the status vocabularies.

pub mod amount;
pub mod text;
pub mod ids;
pub mod emv_qr;
pub mod entity;
pub mod chart_dataset;
pub mod posting;
pub mod period_close;
pub mod bank_reconciliation;
pub mod check_printing;
pub mod tax_tag_repair;
pub mod reporting;
pub mod aged_totals;
pub mod trial_balance_tree;
pub mod trial_balance_rollup;
pub mod reconcile_write;
pub mod journal_workflow;
pub mod chart_install;
pub mod emv_qr_service;
