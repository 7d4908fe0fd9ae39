use accounting_core::tax_tag_repair::{
    audit_reason, check_lock_posture, dedup_tags, repair_report, rule_report, validate_request, RepairRequest,
    TaxTagRepairError, TaxTagRule,
};

fn rule(account: Option<u128>, tax: Option<bool>, tags: &[&str]) -> TaxTagRule {
    TaxTagRule { account_id: account, is_tax_line: tax, tags: tags.iter().map(|t| t.to_string()).collect() }
}

fn request(reason: &str, from: i32, to: i32, rules: Vec<TaxTagRule>) -> RepairRequest {
    RepairRequest {
        company_id: 1,
        date_from: from,
        date_to: to,
        rules,
        allow_closed_periods: false,
        dry_run: true,
        actor: None,
        reason: reason.into(),
    }
}

#[test]
fn guards_in_order() {
    assert!(matches!(validate_request(&request("  ", 5, 1, vec![])), Err(TaxTagRepairError::ReasonRequired)));
    assert!(matches!(validate_request(&request("law", 5, 1, vec![])), Err(TaxTagRepairError::WindowInverted)));
    assert!(matches!(validate_request(&request("law", 1, 5, vec![])), Err(TaxTagRepairError::RuleWithoutTags(0))));
    let rules = vec![rule(Some(1), None, &["a"]), rule(None, None, &["b"])];
    assert!(matches!(validate_request(&request("law", 1, 5, rules)), Err(TaxTagRepairError::RuleWithoutSelector(1))));
    let rules = vec![rule(None, Some(true), &[])];
    assert!(matches!(validate_request(&request("law", 1, 5, rules)), Err(TaxTagRepairError::RuleWithoutTags(0))));
    let rules = vec![rule(None, Some(false), &["x"])];
    assert!(validate_request(&request("law", 1, 1, rules)).is_ok());
}

#[test]
fn lock_posture() {
    let r = check_lock_posture(vec!["2026-01".into()], &vec!["2025-12".into()], true);
    assert!(matches!(r, Err(TaxTagRepairError::LockedPeriodInWindow(ref p)) if p == &vec!["2026-01".to_string()]));
    let r = check_lock_posture(vec![], &vec!["2025-12".into()], false);
    assert!(matches!(r, Err(TaxTagRepairError::ClosedPeriodRequiresOverride(ref p)) if p.len() == 1));
    assert!(check_lock_posture(vec![], &vec!["2025-12".into()], true).is_ok());
    assert!(check_lock_posture(vec![], &vec![], false).is_ok());
}

#[test]
fn tags_deduplicated_in_order() {
    let tags: Vec<String> = ["b", "a", "b", "c", "a"].iter().map(|t| t.to_string()).collect();
    assert_eq!(dedup_tags(&tags), vec!["b".to_string(), "a".to_string(), "c".to_string()]);
    let once = dedup_tags(&tags);
    assert_eq!(dedup_tags(&once), once);
}

#[test]
fn report_totals() {
    let r = rule(Some(1), None, &["t1", "t1"]);
    let per = vec![rule_report(&r, 10, 4), rule_report(&r, 5, 5)];
    assert_eq!(per[0].tags, vec!["t1".to_string(), "t1".to_string()]);
    let rep = repair_report(9, true, per, vec!["2025-12".into()]);
    assert_eq!(rep.lines_examined, 15);
    assert_eq!(rep.lines_retagged, 9);
    assert_eq!(rep.closed_periods_overridden.len(), 1);
}

#[test]
fn error_codes_and_status() {
    assert_eq!(TaxTagRepairError::ReasonRequired.code(), "reason_required");
    assert_eq!(TaxTagRepairError::ClosedPeriodRequiresOverride(vec![]).code(), "closed_period_requires_override");
    assert_eq!(TaxTagRepairError::WindowInverted.http_status(), 422);
    assert_eq!(TaxTagRepairError::Internal("db".into()).http_status(), 500);
    assert_eq!(TaxTagRepairError::Internal("db".into()).code(), "internal_error");
}

#[test]
fn audit_reason_is_trimmed() {
    assert_eq!(audit_reason(&request("  new regulation  ", 1, 2, vec![])), "new regulation");
}
