use accounting_core::amount::Amount;
use accounting_core::reporting::DetailNet;
use accounting_core::trial_balance_tree::{trial_balance_tree, AccountNode, TrialBalanceNode};

fn node(id: u128, parent: Option<u128>, number: &str) -> AccountNode {
    AccountNode {
        id,
        parent_id: parent,
        account_number: number.into(),
        name: format!("Account {number}"),
        account_type: "asset".into(),
        level: 0,
        is_header: parent.is_none(),
    }
}

fn net(id: u128, d: i128, c: i128) -> DetailNet {
    DetailNet { account_id: id, debit: Amount::new(d, 2), credit: Amount::new(c, 2) }
}

fn numbers(ts: &[TrialBalanceNode]) -> Vec<String> {
    ts.iter().map(|t| t.account_number.clone()).collect()
}

#[test]
fn headers_aggregate_descendants() {
    let dir = vec![
        node(1, None, "1000"),
        node(3, Some(1), "1200"),
        node(2, Some(1), "1100"),
        node(4, Some(2), "1110"),
        node(5, None, "2000"),
        node(6, Some(5), "2100"),
    ];
    let lines = vec![net(4, 500, 0), net(3, 200, 0), net(6, 0, 700)];
    let tree = trial_balance_tree(&dir, &lines).unwrap();
    assert_eq!(numbers(&tree), vec!["1000", "2000"]);
    assert_eq!(tree[0].debit.mantissa, 700);
    assert_eq!(numbers(&tree[0].children), vec!["1100", "1200"]);
    assert_eq!(tree[0].children[0].debit.mantissa, 500);
    assert_eq!(tree[0].children[0].children[0].account_number, "1110");
    assert_eq!(tree[1].credit.mantissa, 700);
}

#[test]
fn quiet_branches_collapse() {
    let dir = vec![node(1, None, "1000"), node(2, Some(1), "1100"), node(3, None, "3000"), node(4, Some(3), "3100")];
    let lines = vec![net(2, 100, 0)];
    let tree = trial_balance_tree(&dir, &lines).unwrap();
    assert_eq!(numbers(&tree), vec!["1000"]);
    assert_eq!(tree[0].children.len(), 1);
}

#[test]
fn parent_cycle_does_not_hang() {
    let dir = vec![node(1, None, "1000"), node(2, Some(3), "2000"), node(3, Some(2), "3000")];
    let lines = vec![net(2, 100, 0), net(1, 5, 0)];
    let tree = trial_balance_tree(&dir, &lines).unwrap();
    assert_eq!(numbers(&tree), vec!["1000"]);
    assert_eq!(tree[0].debit.mantissa, 5);
    assert!(tree[0].children.is_empty());
}

#[test]
fn missing_parent_stops_the_climb() {
    let dir = vec![node(1, None, "1000"), node(2, Some(99), "1100")];
    let lines = vec![net(2, 100, 0)];
    let tree = trial_balance_tree(&dir, &lines).unwrap();
    assert!(tree.is_empty());
}

#[test]
fn equal_numbers_keep_directory_order() {
    let dir = vec![node(1, None, "1000"), node(2, Some(1), "X"), node(3, Some(1), "X")];
    let lines = vec![net(3, 1, 0), net(2, 2, 0)];
    let tree = trial_balance_tree(&dir, &lines).unwrap();
    assert_eq!(tree[0].children[0].debit.mantissa, 2);
    assert_eq!(tree[0].children[1].debit.mantissa, 1);
}

#[test]
fn rollup_adds_across_scales() {
    let dir = vec![node(1, None, "1000"), node(2, Some(1), "1100"), node(3, Some(1), "1200")];
    let lines = vec![
        DetailNet { account_id: 2, debit: Amount::new(5, 0), credit: Amount::new(0, 0) },
        DetailNet { account_id: 3, debit: Amount::new(125, 2), credit: Amount::new(5, 1) },
    ];
    let tree = trial_balance_tree(&dir, &lines).unwrap();
    let units = |x: &Amount| x.mantissa * 10i128.pow(4 - x.scale);
    assert_eq!(units(&tree[0].debit), 62_500);
    assert_eq!(units(&tree[0].credit), 5_000);
    assert_eq!(units(&tree[0].children[0].debit), 50_000);
    assert_eq!(units(&tree[0].children[1].debit), 12_500);
}
