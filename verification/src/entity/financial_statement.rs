//! The financial statement record and its builder.
//!
//! Ids are the 128-bit values of uuids; decimals are [`Amount`]s; dates are
//! day numbers (day 1 is 0001-01-01); instants are microseconds since
//! 1970-01-01 UTC; JSON values are held as their JSON text.

use crate::amount::Amount;
use crate::entity::statement_status::StatementStatus;
use crate::entity::statement_type::StatementType;
use crate::text::string_from;
use vstd::prelude::*;

verus! {

/// A financial statement record.
#[derive(Debug, Clone)]
pub struct FinancialStatement {
    pub id: u128,
    pub company_id: u128,
    pub statement_number: String,
    pub statement_type: StatementType,
    pub name: String,
    pub fiscal_period_id: Option<u128>,
    pub fiscal_year: i32,
    pub fiscal_month: Option<i32>,
    pub as_of_date: i32,
    pub period_start: Option<i32>,
    pub period_end: Option<i32>,
    pub is_comparative: bool,
    pub comparative_period_id: Option<u128>,
    pub comparative_as_of_date: Option<i32>,
    pub status: StatementStatus,
    pub total_current_assets: Option<Amount>,
    pub total_non_current_assets: Option<Amount>,
    pub total_assets: Option<Amount>,
    pub total_current_liabilities: Option<Amount>,
    pub total_non_current_liabilities: Option<Amount>,
    pub total_liabilities: Option<Amount>,
    pub total_equity: Option<Amount>,
    pub balance_check: bool,
    pub balance_difference: Option<Amount>,
    pub total_revenue: Option<Amount>,
    pub total_cogs: Option<Amount>,
    pub gross_profit: Option<Amount>,
    pub gross_profit_margin: Option<Amount>,
    pub total_operating_expenses: Option<Amount>,
    pub operating_income: Option<Amount>,
    pub operating_margin: Option<Amount>,
    pub total_other_income: Option<Amount>,
    pub total_other_expenses: Option<Amount>,
    pub income_before_tax: Option<Amount>,
    pub tax_expense: Option<Amount>,
    pub net_income: Option<Amount>,
    pub net_profit_margin: Option<Amount>,
    pub cash_from_operations: Option<Amount>,
    pub cash_from_investing: Option<Amount>,
    pub cash_from_financing: Option<Amount>,
    pub net_cash_change: Option<Amount>,
    pub beginning_cash: Option<Amount>,
    pub ending_cash: Option<Amount>,
    pub total_debits: Option<Amount>,
    pub total_credits: Option<Amount>,
    pub trial_balance_check: bool,
    pub line_items: String,
    pub comparative_data: String,
    pub variance_data: String,
    pub notes: String,
    pub management_notes: Option<String>,
    pub generated_at: Option<i64>,
    pub generated_by: Option<u128>,
    pub generation_parameters: String,
    pub reviewed_at: Option<i64>,
    pub reviewed_by: Option<u128>,
    pub approved_at: Option<i64>,
    pub approved_by: Option<u128>,
    pub published_at: Option<i64>,
    pub pdf_url: Option<String>,
    pub excel_url: Option<String>,
    pub currency: String,
    /// The audit metadata (creation, update and deletion stamps), as JSON text.
    pub metadata: String,
}

/// Collects the fields of a financial statement; `build` checks the required ones and
/// fills in the defaults.
#[derive(Debug, Clone)]
pub struct FinancialStatementBuilder {
    pub company_id: Option<u128>,
    pub statement_number: Option<String>,
    pub statement_type: Option<StatementType>,
    pub name: Option<String>,
    pub fiscal_period_id: Option<u128>,
    pub fiscal_year: Option<i32>,
    pub fiscal_month: Option<i32>,
    pub as_of_date: Option<i32>,
    pub period_start: Option<i32>,
    pub period_end: Option<i32>,
    pub is_comparative: Option<bool>,
    pub comparative_period_id: Option<u128>,
    pub comparative_as_of_date: Option<i32>,
    pub status: Option<StatementStatus>,
    pub total_current_assets: Option<Amount>,
    pub total_non_current_assets: Option<Amount>,
    pub total_assets: Option<Amount>,
    pub total_current_liabilities: Option<Amount>,
    pub total_non_current_liabilities: Option<Amount>,
    pub total_liabilities: Option<Amount>,
    pub total_equity: Option<Amount>,
    pub balance_check: Option<bool>,
    pub balance_difference: Option<Amount>,
    pub total_revenue: Option<Amount>,
    pub total_cogs: Option<Amount>,
    pub gross_profit: Option<Amount>,
    pub gross_profit_margin: Option<Amount>,
    pub total_operating_expenses: Option<Amount>,
    pub operating_income: Option<Amount>,
    pub operating_margin: Option<Amount>,
    pub total_other_income: Option<Amount>,
    pub total_other_expenses: Option<Amount>,
    pub income_before_tax: Option<Amount>,
    pub tax_expense: Option<Amount>,
    pub net_income: Option<Amount>,
    pub net_profit_margin: Option<Amount>,
    pub cash_from_operations: Option<Amount>,
    pub cash_from_investing: Option<Amount>,
    pub cash_from_financing: Option<Amount>,
    pub net_cash_change: Option<Amount>,
    pub beginning_cash: Option<Amount>,
    pub ending_cash: Option<Amount>,
    pub total_debits: Option<Amount>,
    pub total_credits: Option<Amount>,
    pub trial_balance_check: Option<bool>,
    pub line_items: Option<String>,
    pub comparative_data: Option<String>,
    pub variance_data: Option<String>,
    pub notes: Option<String>,
    pub management_notes: Option<String>,
    pub generated_at: Option<i64>,
    pub generated_by: Option<u128>,
    pub generation_parameters: Option<String>,
    pub reviewed_at: Option<i64>,
    pub reviewed_by: Option<u128>,
    pub approved_at: Option<i64>,
    pub approved_by: Option<u128>,
    pub published_at: Option<i64>,
    pub pdf_url: Option<String>,
    pub excel_url: Option<String>,
    pub currency: Option<String>,
}

impl FinancialStatement {
    /// A builder with no field set.
    pub fn builder() -> (r: FinancialStatementBuilder)
        ensures
            r.company_id is None,
            r.statement_number is None,
            r.statement_type is None,
            r.name is None,
            r.fiscal_period_id is None,
            r.fiscal_year is None,
            r.fiscal_month is None,
            r.as_of_date is None,
            r.period_start is None,
            r.period_end is None,
            r.is_comparative is None,
            r.comparative_period_id is None,
            r.comparative_as_of_date is None,
            r.status is None,
            r.total_current_assets is None,
            r.total_non_current_assets is None,
            r.total_assets is None,
            r.total_current_liabilities is None,
            r.total_non_current_liabilities is None,
            r.total_liabilities is None,
            r.total_equity is None,
            r.balance_check is None,
            r.balance_difference is None,
            r.total_revenue is None,
            r.total_cogs is None,
            r.gross_profit is None,
            r.gross_profit_margin is None,
            r.total_operating_expenses is None,
            r.operating_income is None,
            r.operating_margin is None,
            r.total_other_income is None,
            r.total_other_expenses is None,
            r.income_before_tax is None,
            r.tax_expense is None,
            r.net_income is None,
            r.net_profit_margin is None,
            r.cash_from_operations is None,
            r.cash_from_investing is None,
            r.cash_from_financing is None,
            r.net_cash_change is None,
            r.beginning_cash is None,
            r.ending_cash is None,
            r.total_debits is None,
            r.total_credits is None,
            r.trial_balance_check is None,
            r.line_items is None,
            r.comparative_data is None,
            r.variance_data is None,
            r.notes is None,
            r.management_notes is None,
            r.generated_at is None,
            r.generated_by is None,
            r.generation_parameters is None,
            r.reviewed_at is None,
            r.reviewed_by is None,
            r.approved_at is None,
            r.approved_by is None,
            r.published_at is None,
            r.pdf_url is None,
            r.excel_url is None,
            r.currency is None,
    {
        FinancialStatementBuilder {
            company_id: None,
            statement_number: None,
            statement_type: None,
            name: None,
            fiscal_period_id: None,
            fiscal_year: None,
            fiscal_month: None,
            as_of_date: None,
            period_start: None,
            period_end: None,
            is_comparative: None,
            comparative_period_id: None,
            comparative_as_of_date: None,
            status: None,
            total_current_assets: None,
            total_non_current_assets: None,
            total_assets: None,
            total_current_liabilities: None,
            total_non_current_liabilities: None,
            total_liabilities: None,
            total_equity: None,
            balance_check: None,
            balance_difference: None,
            total_revenue: None,
            total_cogs: None,
            gross_profit: None,
            gross_profit_margin: None,
            total_operating_expenses: None,
            operating_income: None,
            operating_margin: None,
            total_other_income: None,
            total_other_expenses: None,
            income_before_tax: None,
            tax_expense: None,
            net_income: None,
            net_profit_margin: None,
            cash_from_operations: None,
            cash_from_investing: None,
            cash_from_financing: None,
            net_cash_change: None,
            beginning_cash: None,
            ending_cash: None,
            total_debits: None,
            total_credits: None,
            trial_balance_check: None,
            line_items: None,
            comparative_data: None,
            variance_data: None,
            notes: None,
            management_notes: None,
            generated_at: None,
            generated_by: None,
            generation_parameters: None,
            reviewed_at: None,
            reviewed_by: None,
            approved_at: None,
            approved_by: None,
            published_at: None,
            pdf_url: None,
            excel_url: None,
            currency: None,
        }
    }

    /// A financial statement from its required fields; every optional field is unset.
    pub fn new(id: u128, company_id: u128, statement_number: String, statement_type: StatementType, name: String, fiscal_year: i32, as_of_date: i32, is_comparative: bool, status: StatementStatus, balance_check: bool, trial_balance_check: bool, line_items: String, comparative_data: String, variance_data: String, notes: String, generation_parameters: String, currency: String, metadata: String) -> (r: FinancialStatement)
        ensures
            r.id == id,
            r.company_id == company_id,
            r.statement_number == statement_number,
            r.statement_type == statement_type,
            r.name == name,
            r.fiscal_period_id is None,
            r.fiscal_year == fiscal_year,
            r.fiscal_month is None,
            r.as_of_date == as_of_date,
            r.period_start is None,
            r.period_end is None,
            r.is_comparative == is_comparative,
            r.comparative_period_id is None,
            r.comparative_as_of_date is None,
            r.status == status,
            r.total_current_assets is None,
            r.total_non_current_assets is None,
            r.total_assets is None,
            r.total_current_liabilities is None,
            r.total_non_current_liabilities is None,
            r.total_liabilities is None,
            r.total_equity is None,
            r.balance_check == balance_check,
            r.balance_difference is None,
            r.total_revenue is None,
            r.total_cogs is None,
            r.gross_profit is None,
            r.gross_profit_margin is None,
            r.total_operating_expenses is None,
            r.operating_income is None,
            r.operating_margin is None,
            r.total_other_income is None,
            r.total_other_expenses is None,
            r.income_before_tax is None,
            r.tax_expense is None,
            r.net_income is None,
            r.net_profit_margin is None,
            r.cash_from_operations is None,
            r.cash_from_investing is None,
            r.cash_from_financing is None,
            r.net_cash_change is None,
            r.beginning_cash is None,
            r.ending_cash is None,
            r.total_debits is None,
            r.total_credits is None,
            r.trial_balance_check == trial_balance_check,
            r.line_items == line_items,
            r.comparative_data == comparative_data,
            r.variance_data == variance_data,
            r.notes == notes,
            r.management_notes is None,
            r.generated_at is None,
            r.generated_by is None,
            r.generation_parameters == generation_parameters,
            r.reviewed_at is None,
            r.reviewed_by is None,
            r.approved_at is None,
            r.approved_by is None,
            r.published_at is None,
            r.pdf_url is None,
            r.excel_url is None,
            r.currency == currency,
            r.metadata == metadata,
    {
        FinancialStatement {
            id,
            company_id,
            statement_number,
            statement_type,
            name,
            fiscal_period_id: None,
            fiscal_year,
            fiscal_month: None,
            as_of_date,
            period_start: None,
            period_end: None,
            is_comparative,
            comparative_period_id: None,
            comparative_as_of_date: None,
            status,
            total_current_assets: None,
            total_non_current_assets: None,
            total_assets: None,
            total_current_liabilities: None,
            total_non_current_liabilities: None,
            total_liabilities: None,
            total_equity: None,
            balance_check,
            balance_difference: None,
            total_revenue: None,
            total_cogs: None,
            gross_profit: None,
            gross_profit_margin: None,
            total_operating_expenses: None,
            operating_income: None,
            operating_margin: None,
            total_other_income: None,
            total_other_expenses: None,
            income_before_tax: None,
            tax_expense: None,
            net_income: None,
            net_profit_margin: None,
            cash_from_operations: None,
            cash_from_investing: None,
            cash_from_financing: None,
            net_cash_change: None,
            beginning_cash: None,
            ending_cash: None,
            total_debits: None,
            total_credits: None,
            trial_balance_check,
            line_items,
            comparative_data,
            variance_data,
            notes,
            management_notes: None,
            generated_at: None,
            generated_by: None,
            generation_parameters,
            reviewed_at: None,
            reviewed_by: None,
            approved_at: None,
            approved_by: None,
            published_at: None,
            pdf_url: None,
            excel_url: None,
            currency,
            metadata,
        }
    }
}

impl FinancialStatementBuilder {
    /// The refusal of the first required field left unset, in order.
    pub open spec fn first_missing(self) -> Option<Seq<char>> {
        if self.company_id is None {
            Some("company_id is required"@)
        } else if self.statement_number is None {
            Some("statement_number is required"@)
        } else if self.statement_type is None {
            Some("statement_type is required"@)
        } else if self.name is None {
            Some("name is required"@)
        } else if self.fiscal_year is None {
            Some("fiscal_year is required"@)
        } else if self.as_of_date is None {
            Some("as_of_date is required"@)
        } else {
            None
        }
    }

    /// Set `company_id`.
    pub fn company_id(self, value: u128) -> (r: FinancialStatementBuilder)
        ensures
            r == (FinancialStatementBuilder { company_id: Some(value), ..self }),
    {
        FinancialStatementBuilder { company_id: Some(value), ..self }
    }

    /// Set `statement_number`.
    pub fn statement_number(self, value: String) -> (r: FinancialStatementBuilder)
        ensures
            r == (FinancialStatementBuilder { statement_number: Some(value), ..self }),
    {
        FinancialStatementBuilder { statement_number: Some(value), ..self }
    }

    /// Set `statement_type`.
    pub fn statement_type(self, value: StatementType) -> (r: FinancialStatementBuilder)
        ensures
            r == (FinancialStatementBuilder { statement_type: Some(value), ..self }),
    {
        FinancialStatementBuilder { statement_type: Some(value), ..self }
    }

    /// Set `name`.
    pub fn name(self, value: String) -> (r: FinancialStatementBuilder)
        ensures
            r == (FinancialStatementBuilder { name: Some(value), ..self }),
    {
        FinancialStatementBuilder { name: Some(value), ..self }
    }

    /// Set `fiscal_period_id`.
    pub fn fiscal_period_id(self, value: u128) -> (r: FinancialStatementBuilder)
        ensures
            r == (FinancialStatementBuilder { fiscal_period_id: Some(value), ..self }),
    {
        FinancialStatementBuilder { fiscal_period_id: Some(value), ..self }
    }

    /// Set `fiscal_year`.
    pub fn fiscal_year(self, value: i32) -> (r: FinancialStatementBuilder)
        ensures
            r == (FinancialStatementBuilder { fiscal_year: Some(value), ..self }),
    {
        FinancialStatementBuilder { fiscal_year: Some(value), ..self }
    }

    /// Set `fiscal_month`.
    pub fn fiscal_month(self, value: i32) -> (r: FinancialStatementBuilder)
        ensures
            r == (FinancialStatementBuilder { fiscal_month: Some(value), ..self }),
    {
        FinancialStatementBuilder { fiscal_month: Some(value), ..self }
    }

    /// Set `as_of_date`.
    pub fn as_of_date(self, value: i32) -> (r: FinancialStatementBuilder)
        ensures
            r == (FinancialStatementBuilder { as_of_date: Some(value), ..self }),
    {
        FinancialStatementBuilder { as_of_date: Some(value), ..self }
    }

    /// Set `period_start`.
    pub fn period_start(self, value: i32) -> (r: FinancialStatementBuilder)
        ensures
            r == (FinancialStatementBuilder { period_start: Some(value), ..self }),
    {
        FinancialStatementBuilder { period_start: Some(value), ..self }
    }

    /// Set `period_end`.
    pub fn period_end(self, value: i32) -> (r: FinancialStatementBuilder)
        ensures
            r == (FinancialStatementBuilder { period_end: Some(value), ..self }),
    {
        FinancialStatementBuilder { period_end: Some(value), ..self }
    }

    /// Set `is_comparative`.
    pub fn is_comparative(self, value: bool) -> (r: FinancialStatementBuilder)
        ensures
            r == (FinancialStatementBuilder { is_comparative: Some(value), ..self }),
    {
        FinancialStatementBuilder { is_comparative: Some(value), ..self }
    }

    /// Set `comparative_period_id`.
    pub fn comparative_period_id(self, value: u128) -> (r: FinancialStatementBuilder)
        ensures
            r == (FinancialStatementBuilder { comparative_period_id: Some(value), ..self }),
    {
        FinancialStatementBuilder { comparative_period_id: Some(value), ..self }
    }

    /// Set `comparative_as_of_date`.
    pub fn comparative_as_of_date(self, value: i32) -> (r: FinancialStatementBuilder)
        ensures
            r == (FinancialStatementBuilder { comparative_as_of_date: Some(value), ..self }),
    {
        FinancialStatementBuilder { comparative_as_of_date: Some(value), ..self }
    }

    /// Set `status`.
    pub fn status(self, value: StatementStatus) -> (r: FinancialStatementBuilder)
        ensures
            r == (FinancialStatementBuilder { status: Some(value), ..self }),
    {
        FinancialStatementBuilder { status: Some(value), ..self }
    }

    /// Set `total_current_assets`.
    pub fn total_current_assets(self, value: Amount) -> (r: FinancialStatementBuilder)
        ensures
            r == (FinancialStatementBuilder { total_current_assets: Some(value), ..self }),
    {
        FinancialStatementBuilder { total_current_assets: Some(value), ..self }
    }

    /// Set `total_non_current_assets`.
    pub fn total_non_current_assets(self, value: Amount) -> (r: FinancialStatementBuilder)
        ensures
            r == (FinancialStatementBuilder { total_non_current_assets: Some(value), ..self }),
    {
        FinancialStatementBuilder { total_non_current_assets: Some(value), ..self }
    }

    /// Set `total_assets`.
    pub fn total_assets(self, value: Amount) -> (r: FinancialStatementBuilder)
        ensures
            r == (FinancialStatementBuilder { total_assets: Some(value), ..self }),
    {
        FinancialStatementBuilder { total_assets: Some(value), ..self }
    }

    /// Set `total_current_liabilities`.
    pub fn total_current_liabilities(self, value: Amount) -> (r: FinancialStatementBuilder)
        ensures
            r == (FinancialStatementBuilder { total_current_liabilities: Some(value), ..self }),
    {
        FinancialStatementBuilder { total_current_liabilities: Some(value), ..self }
    }

    /// Set `total_non_current_liabilities`.
    pub fn total_non_current_liabilities(self, value: Amount) -> (r: FinancialStatementBuilder)
        ensures
            r == (FinancialStatementBuilder { total_non_current_liabilities: Some(value), ..self }),
    {
        FinancialStatementBuilder { total_non_current_liabilities: Some(value), ..self }
    }

    /// Set `total_liabilities`.
    pub fn total_liabilities(self, value: Amount) -> (r: FinancialStatementBuilder)
        ensures
            r == (FinancialStatementBuilder { total_liabilities: Some(value), ..self }),
    {
        FinancialStatementBuilder { total_liabilities: Some(value), ..self }
    }

    /// Set `total_equity`.
    pub fn total_equity(self, value: Amount) -> (r: FinancialStatementBuilder)
        ensures
            r == (FinancialStatementBuilder { total_equity: Some(value), ..self }),
    {
        FinancialStatementBuilder { total_equity: Some(value), ..self }
    }

    /// Set `balance_check`.
    pub fn balance_check(self, value: bool) -> (r: FinancialStatementBuilder)
        ensures
            r == (FinancialStatementBuilder { balance_check: Some(value), ..self }),
    {
        FinancialStatementBuilder { balance_check: Some(value), ..self }
    }

    /// Set `balance_difference`.
    pub fn balance_difference(self, value: Amount) -> (r: FinancialStatementBuilder)
        ensures
            r == (FinancialStatementBuilder { balance_difference: Some(value), ..self }),
    {
        FinancialStatementBuilder { balance_difference: Some(value), ..self }
    }

    /// Set `total_revenue`.
    pub fn total_revenue(self, value: Amount) -> (r: FinancialStatementBuilder)
        ensures
            r == (FinancialStatementBuilder { total_revenue: Some(value), ..self }),
    {
        FinancialStatementBuilder { total_revenue: Some(value), ..self }
    }

    /// Set `total_cogs`.
    pub fn total_cogs(self, value: Amount) -> (r: FinancialStatementBuilder)
        ensures
            r == (FinancialStatementBuilder { total_cogs: Some(value), ..self }),
    {
        FinancialStatementBuilder { total_cogs: Some(value), ..self }
    }

    /// Set `gross_profit`.
    pub fn gross_profit(self, value: Amount) -> (r: FinancialStatementBuilder)
        ensures
            r == (FinancialStatementBuilder { gross_profit: Some(value), ..self }),
    {
        FinancialStatementBuilder { gross_profit: Some(value), ..self }
    }

    /// Set `gross_profit_margin`.
    pub fn gross_profit_margin(self, value: Amount) -> (r: FinancialStatementBuilder)
        ensures
            r == (FinancialStatementBuilder { gross_profit_margin: Some(value), ..self }),
    {
        FinancialStatementBuilder { gross_profit_margin: Some(value), ..self }
    }

    /// Set `total_operating_expenses`.
    pub fn total_operating_expenses(self, value: Amount) -> (r: FinancialStatementBuilder)
        ensures
            r == (FinancialStatementBuilder { total_operating_expenses: Some(value), ..self }),
    {
        FinancialStatementBuilder { total_operating_expenses: Some(value), ..self }
    }

    /// Set `operating_income`.
    pub fn operating_income(self, value: Amount) -> (r: FinancialStatementBuilder)
        ensures
            r == (FinancialStatementBuilder { operating_income: Some(value), ..self }),
    {
        FinancialStatementBuilder { operating_income: Some(value), ..self }
    }

    /// Set `operating_margin`.
    pub fn operating_margin(self, value: Amount) -> (r: FinancialStatementBuilder)
        ensures
            r == (FinancialStatementBuilder { operating_margin: Some(value), ..self }),
    {
        FinancialStatementBuilder { operating_margin: Some(value), ..self }
    }

    /// Set `total_other_income`.
    pub fn total_other_income(self, value: Amount) -> (r: FinancialStatementBuilder)
        ensures
            r == (FinancialStatementBuilder { total_other_income: Some(value), ..self }),
    {
        FinancialStatementBuilder { total_other_income: Some(value), ..self }
    }

    /// Set `total_other_expenses`.
    pub fn total_other_expenses(self, value: Amount) -> (r: FinancialStatementBuilder)
        ensures
            r == (FinancialStatementBuilder { total_other_expenses: Some(value), ..self }),
    {
        FinancialStatementBuilder { total_other_expenses: Some(value), ..self }
    }

    /// Set `income_before_tax`.
    pub fn income_before_tax(self, value: Amount) -> (r: FinancialStatementBuilder)
        ensures
            r == (FinancialStatementBuilder { income_before_tax: Some(value), ..self }),
    {
        FinancialStatementBuilder { income_before_tax: Some(value), ..self }
    }

    /// Set `tax_expense`.
    pub fn tax_expense(self, value: Amount) -> (r: FinancialStatementBuilder)
        ensures
            r == (FinancialStatementBuilder { tax_expense: Some(value), ..self }),
    {
        FinancialStatementBuilder { tax_expense: Some(value), ..self }
    }

    /// Set `net_income`.
    pub fn net_income(self, value: Amount) -> (r: FinancialStatementBuilder)
        ensures
            r == (FinancialStatementBuilder { net_income: Some(value), ..self }),
    {
        FinancialStatementBuilder { net_income: Some(value), ..self }
    }

    /// Set `net_profit_margin`.
    pub fn net_profit_margin(self, value: Amount) -> (r: FinancialStatementBuilder)
        ensures
            r == (FinancialStatementBuilder { net_profit_margin: Some(value), ..self }),
    {
        FinancialStatementBuilder { net_profit_margin: Some(value), ..self }
    }

    /// Set `cash_from_operations`.
    pub fn cash_from_operations(self, value: Amount) -> (r: FinancialStatementBuilder)
        ensures
            r == (FinancialStatementBuilder { cash_from_operations: Some(value), ..self }),
    {
        FinancialStatementBuilder { cash_from_operations: Some(value), ..self }
    }

    /// Set `cash_from_investing`.
    pub fn cash_from_investing(self, value: Amount) -> (r: FinancialStatementBuilder)
        ensures
            r == (FinancialStatementBuilder { cash_from_investing: Some(value), ..self }),
    {
        FinancialStatementBuilder { cash_from_investing: Some(value), ..self }
    }

    /// Set `cash_from_financing`.
    pub fn cash_from_financing(self, value: Amount) -> (r: FinancialStatementBuilder)
        ensures
            r == (FinancialStatementBuilder { cash_from_financing: Some(value), ..self }),
    {
        FinancialStatementBuilder { cash_from_financing: Some(value), ..self }
    }

    /// Set `net_cash_change`.
    pub fn net_cash_change(self, value: Amount) -> (r: FinancialStatementBuilder)
        ensures
            r == (FinancialStatementBuilder { net_cash_change: Some(value), ..self }),
    {
        FinancialStatementBuilder { net_cash_change: Some(value), ..self }
    }

    /// Set `beginning_cash`.
    pub fn beginning_cash(self, value: Amount) -> (r: FinancialStatementBuilder)
        ensures
            r == (FinancialStatementBuilder { beginning_cash: Some(value), ..self }),
    {
        FinancialStatementBuilder { beginning_cash: Some(value), ..self }
    }

    /// Set `ending_cash`.
    pub fn ending_cash(self, value: Amount) -> (r: FinancialStatementBuilder)
        ensures
            r == (FinancialStatementBuilder { ending_cash: Some(value), ..self }),
    {
        FinancialStatementBuilder { ending_cash: Some(value), ..self }
    }

    /// Set `total_debits`.
    pub fn total_debits(self, value: Amount) -> (r: FinancialStatementBuilder)
        ensures
            r == (FinancialStatementBuilder { total_debits: Some(value), ..self }),
    {
        FinancialStatementBuilder { total_debits: Some(value), ..self }
    }

    /// Set `total_credits`.
    pub fn total_credits(self, value: Amount) -> (r: FinancialStatementBuilder)
        ensures
            r == (FinancialStatementBuilder { total_credits: Some(value), ..self }),
    {
        FinancialStatementBuilder { total_credits: Some(value), ..self }
    }

    /// Set `trial_balance_check`.
    pub fn trial_balance_check(self, value: bool) -> (r: FinancialStatementBuilder)
        ensures
            r == (FinancialStatementBuilder { trial_balance_check: Some(value), ..self }),
    {
        FinancialStatementBuilder { trial_balance_check: Some(value), ..self }
    }

    /// Set `line_items`.
    pub fn line_items(self, value: String) -> (r: FinancialStatementBuilder)
        ensures
            r == (FinancialStatementBuilder { line_items: Some(value), ..self }),
    {
        FinancialStatementBuilder { line_items: Some(value), ..self }
    }

    /// Set `comparative_data`.
    pub fn comparative_data(self, value: String) -> (r: FinancialStatementBuilder)
        ensures
            r == (FinancialStatementBuilder { comparative_data: Some(value), ..self }),
    {
        FinancialStatementBuilder { comparative_data: Some(value), ..self }
    }

    /// Set `variance_data`.
    pub fn variance_data(self, value: String) -> (r: FinancialStatementBuilder)
        ensures
            r == (FinancialStatementBuilder { variance_data: Some(value), ..self }),
    {
        FinancialStatementBuilder { variance_data: Some(value), ..self }
    }

    /// Set `notes`.
    pub fn notes(self, value: String) -> (r: FinancialStatementBuilder)
        ensures
            r == (FinancialStatementBuilder { notes: Some(value), ..self }),
    {
        FinancialStatementBuilder { notes: Some(value), ..self }
    }

    /// Set `management_notes`.
    pub fn management_notes(self, value: String) -> (r: FinancialStatementBuilder)
        ensures
            r == (FinancialStatementBuilder { management_notes: Some(value), ..self }),
    {
        FinancialStatementBuilder { management_notes: Some(value), ..self }
    }

    /// Set `generated_at`.
    pub fn generated_at(self, value: i64) -> (r: FinancialStatementBuilder)
        ensures
            r == (FinancialStatementBuilder { generated_at: Some(value), ..self }),
    {
        FinancialStatementBuilder { generated_at: Some(value), ..self }
    }

    /// Set `generated_by`.
    pub fn generated_by(self, value: u128) -> (r: FinancialStatementBuilder)
        ensures
            r == (FinancialStatementBuilder { generated_by: Some(value), ..self }),
    {
        FinancialStatementBuilder { generated_by: Some(value), ..self }
    }

    /// Set `generation_parameters`.
    pub fn generation_parameters(self, value: String) -> (r: FinancialStatementBuilder)
        ensures
            r == (FinancialStatementBuilder { generation_parameters: Some(value), ..self }),
    {
        FinancialStatementBuilder { generation_parameters: Some(value), ..self }
    }

    /// Set `reviewed_at`.
    pub fn reviewed_at(self, value: i64) -> (r: FinancialStatementBuilder)
        ensures
            r == (FinancialStatementBuilder { reviewed_at: Some(value), ..self }),
    {
        FinancialStatementBuilder { reviewed_at: Some(value), ..self }
    }

    /// Set `reviewed_by`.
    pub fn reviewed_by(self, value: u128) -> (r: FinancialStatementBuilder)
        ensures
            r == (FinancialStatementBuilder { reviewed_by: Some(value), ..self }),
    {
        FinancialStatementBuilder { reviewed_by: Some(value), ..self }
    }

    /// Set `approved_at`.
    pub fn approved_at(self, value: i64) -> (r: FinancialStatementBuilder)
        ensures
            r == (FinancialStatementBuilder { approved_at: Some(value), ..self }),
    {
        FinancialStatementBuilder { approved_at: Some(value), ..self }
    }

    /// Set `approved_by`.
    pub fn approved_by(self, value: u128) -> (r: FinancialStatementBuilder)
        ensures
            r == (FinancialStatementBuilder { approved_by: Some(value), ..self }),
    {
        FinancialStatementBuilder { approved_by: Some(value), ..self }
    }

    /// Set `published_at`.
    pub fn published_at(self, value: i64) -> (r: FinancialStatementBuilder)
        ensures
            r == (FinancialStatementBuilder { published_at: Some(value), ..self }),
    {
        FinancialStatementBuilder { published_at: Some(value), ..self }
    }

    /// Set `pdf_url`.
    pub fn pdf_url(self, value: String) -> (r: FinancialStatementBuilder)
        ensures
            r == (FinancialStatementBuilder { pdf_url: Some(value), ..self }),
    {
        FinancialStatementBuilder { pdf_url: Some(value), ..self }
    }

    /// Set `excel_url`.
    pub fn excel_url(self, value: String) -> (r: FinancialStatementBuilder)
        ensures
            r == (FinancialStatementBuilder { excel_url: Some(value), ..self }),
    {
        FinancialStatementBuilder { excel_url: Some(value), ..self }
    }

    /// Set `currency`.
    pub fn currency(self, value: String) -> (r: FinancialStatementBuilder)
        ensures
            r == (FinancialStatementBuilder { currency: Some(value), ..self }),
    {
        FinancialStatementBuilder { currency: Some(value), ..self }
    }

    /// The financial statement, with `id` as its id, `metadata` as its starting audit metadata.
    /// Refused as [`Self::first_missing`] says when a required field is
    /// unset; otherwise every unset field takes its default.
    pub fn build(self, id: u128, metadata: String) -> (r: Result<FinancialStatement, String>)
        ensures
            self.first_missing() matches Some(msg) ==> (r matches Err(m) && m@ == msg),
            self.first_missing() is None ==> (r matches Ok(e) && {
                &&& e.id == id
                &&& e.company_id == self.company_id.unwrap()
                &&& e.statement_number == self.statement_number.unwrap()
                &&& e.statement_type == self.statement_type.unwrap()
                &&& e.name == self.name.unwrap()
                &&& e.fiscal_period_id == self.fiscal_period_id
                &&& e.fiscal_year == self.fiscal_year.unwrap()
                &&& e.fiscal_month == self.fiscal_month
                &&& e.as_of_date == self.as_of_date.unwrap()
                &&& e.period_start == self.period_start
                &&& e.period_end == self.period_end
                &&& match self.is_comparative { Some(v) => e.is_comparative == v, None => e.is_comparative == false }
                &&& e.comparative_period_id == self.comparative_period_id
                &&& e.comparative_as_of_date == self.comparative_as_of_date
                &&& e.status == (match self.status { Some(v) => v, None => StatementStatus::Draft })
                &&& e.total_current_assets == self.total_current_assets
                &&& e.total_non_current_assets == self.total_non_current_assets
                &&& e.total_assets == self.total_assets
                &&& e.total_current_liabilities == self.total_current_liabilities
                &&& e.total_non_current_liabilities == self.total_non_current_liabilities
                &&& e.total_liabilities == self.total_liabilities
                &&& e.total_equity == self.total_equity
                &&& match self.balance_check { Some(v) => e.balance_check == v, None => e.balance_check == false }
                &&& e.balance_difference == self.balance_difference
                &&& e.total_revenue == self.total_revenue
                &&& e.total_cogs == self.total_cogs
                &&& e.gross_profit == self.gross_profit
                &&& e.gross_profit_margin == self.gross_profit_margin
                &&& e.total_operating_expenses == self.total_operating_expenses
                &&& e.operating_income == self.operating_income
                &&& e.operating_margin == self.operating_margin
                &&& e.total_other_income == self.total_other_income
                &&& e.total_other_expenses == self.total_other_expenses
                &&& e.income_before_tax == self.income_before_tax
                &&& e.tax_expense == self.tax_expense
                &&& e.net_income == self.net_income
                &&& e.net_profit_margin == self.net_profit_margin
                &&& e.cash_from_operations == self.cash_from_operations
                &&& e.cash_from_investing == self.cash_from_investing
                &&& e.cash_from_financing == self.cash_from_financing
                &&& e.net_cash_change == self.net_cash_change
                &&& e.beginning_cash == self.beginning_cash
                &&& e.ending_cash == self.ending_cash
                &&& e.total_debits == self.total_debits
                &&& e.total_credits == self.total_credits
                &&& match self.trial_balance_check { Some(v) => e.trial_balance_check == v, None => e.trial_balance_check == false }
                &&& match self.line_items { Some(v) => e.line_items == v, None => e.line_items@ == "[]"@ }
                &&& match self.comparative_data { Some(v) => e.comparative_data == v, None => e.comparative_data@ == "{}"@ }
                &&& match self.variance_data { Some(v) => e.variance_data == v, None => e.variance_data@ == "{}"@ }
                &&& match self.notes { Some(v) => e.notes == v, None => e.notes@ == "[]"@ }
                &&& e.management_notes == self.management_notes
                &&& e.generated_at == self.generated_at
                &&& e.generated_by == self.generated_by
                &&& match self.generation_parameters { Some(v) => e.generation_parameters == v, None => e.generation_parameters@ == "{}"@ }
                &&& e.reviewed_at == self.reviewed_at
                &&& e.reviewed_by == self.reviewed_by
                &&& e.approved_at == self.approved_at
                &&& e.approved_by == self.approved_by
                &&& e.published_at == self.published_at
                &&& e.pdf_url == self.pdf_url
                &&& e.excel_url == self.excel_url
                &&& match self.currency { Some(v) => e.currency == v, None => e.currency@ == "IDR"@ }
                &&& e.metadata == metadata
            }),
    {
        let company_id: u128 = match self.company_id {
            Some(v) => v,
            None => {
                return Err(string_from("company_id is required"));
            },
        };
        let statement_number: String = match self.statement_number {
            Some(v) => v,
            None => {
                return Err(string_from("statement_number is required"));
            },
        };
        let statement_type: StatementType = match self.statement_type {
            Some(v) => v,
            None => {
                return Err(string_from("statement_type is required"));
            },
        };
        let name: String = match self.name {
            Some(v) => v,
            None => {
                return Err(string_from("name is required"));
            },
        };
        let fiscal_year: i32 = match self.fiscal_year {
            Some(v) => v,
            None => {
                return Err(string_from("fiscal_year is required"));
            },
        };
        let as_of_date: i32 = match self.as_of_date {
            Some(v) => v,
            None => {
                return Err(string_from("as_of_date is required"));
            },
        };
        Ok(FinancialStatement {
            id,
            company_id,
            statement_number,
            statement_type,
            name,
            fiscal_period_id: self.fiscal_period_id,
            fiscal_year,
            fiscal_month: self.fiscal_month,
            as_of_date,
            period_start: self.period_start,
            period_end: self.period_end,
            is_comparative: match self.is_comparative {
                Some(v) => v,
                None => false,
            },
            comparative_period_id: self.comparative_period_id,
            comparative_as_of_date: self.comparative_as_of_date,
            status: match self.status {
                Some(v) => v,
                None => StatementStatus::default(),
            },
            total_current_assets: self.total_current_assets,
            total_non_current_assets: self.total_non_current_assets,
            total_assets: self.total_assets,
            total_current_liabilities: self.total_current_liabilities,
            total_non_current_liabilities: self.total_non_current_liabilities,
            total_liabilities: self.total_liabilities,
            total_equity: self.total_equity,
            balance_check: match self.balance_check {
                Some(v) => v,
                None => false,
            },
            balance_difference: self.balance_difference,
            total_revenue: self.total_revenue,
            total_cogs: self.total_cogs,
            gross_profit: self.gross_profit,
            gross_profit_margin: self.gross_profit_margin,
            total_operating_expenses: self.total_operating_expenses,
            operating_income: self.operating_income,
            operating_margin: self.operating_margin,
            total_other_income: self.total_other_income,
            total_other_expenses: self.total_other_expenses,
            income_before_tax: self.income_before_tax,
            tax_expense: self.tax_expense,
            net_income: self.net_income,
            net_profit_margin: self.net_profit_margin,
            cash_from_operations: self.cash_from_operations,
            cash_from_investing: self.cash_from_investing,
            cash_from_financing: self.cash_from_financing,
            net_cash_change: self.net_cash_change,
            beginning_cash: self.beginning_cash,
            ending_cash: self.ending_cash,
            total_debits: self.total_debits,
            total_credits: self.total_credits,
            trial_balance_check: match self.trial_balance_check {
                Some(v) => v,
                None => false,
            },
            line_items: match self.line_items {
                Some(v) => v,
                None => string_from("[]"),
            },
            comparative_data: match self.comparative_data {
                Some(v) => v,
                None => string_from("{}"),
            },
            variance_data: match self.variance_data {
                Some(v) => v,
                None => string_from("{}"),
            },
            notes: match self.notes {
                Some(v) => v,
                None => string_from("[]"),
            },
            management_notes: self.management_notes,
            generated_at: self.generated_at,
            generated_by: self.generated_by,
            generation_parameters: match self.generation_parameters {
                Some(v) => v,
                None => string_from("{}"),
            },
            reviewed_at: self.reviewed_at,
            reviewed_by: self.reviewed_by,
            approved_at: self.approved_at,
            approved_by: self.approved_by,
            published_at: self.published_at,
            pdf_url: self.pdf_url,
            excel_url: self.excel_url,
            currency: match self.currency {
                Some(v) => v,
                None => string_from("IDR"),
            },
            metadata,
        })
    }
}

} // verus!
