# accounting_core

The verified core of a double-entry accounting module, written in Verus.

- `src/` is the library. The accounting decisions of the module are made
  here and proved against their contracts: decimal amounts (`amount`), posting validation and
  ledger planning (`posting`), the closing entry of a fiscal period
  (`period_close`), bank-statement matching (`bank_reconciliation`), check
  numbering (`check_printing`), tax-tag repair guards (`tax_tag_repair`),
  reports and the rolled-up trial balance (`reporting`, `trial_balance_tree`,
  with what they add up to in `aged_totals` and `trial_balance_rollup`),
  reconciliation writes (`reconcile_write`), the journal approval workflow
  (`journal_workflow`), chart-of-accounts datasets and installs
  (`chart_dataset`, `chart_install`), the EMV merchant QR payload (`emv_qr`,
  `emv_qr_service`), and in `entity` the status vocabularies and the records
  with builders whose field types are all known here.
  Calls into `rust_decimal`, `uuid` and `chrono` go through small trusted
  wrappers whose contracts state what those crates document.
- `app/` holds the services around the library: storage ports, transactions,
  events, serialization and the conversions between `Decimal` / `Uuid` /
  `NaiveDate` and the library's plain values. The reconciliation pair guards
  (which amount a link applies, clamped to both residuals) are a port there,
  `ReconcileRules`, implemented outside this crate; the library verifies what
  is done with the amount it returns; `reconcile_write::clamp_applied` states
  the documented clamp (the least of the requested amount and both residuals).
- `tests/` exercises the library on concrete values.
