use stac_proto::credit::{FlowCredit, DEFAULT_INITIAL_CREDIT};

#[test]
fn default_initial_credit_is_sixteen() {
    assert_eq!(DEFAULT_INITIAL_CREDIT, 16);
}

#[test]
fn sending_spends_one_unit() {
    let mut credit = FlowCredit::new(2);
    assert!(credit.try_send());
    assert_eq!(credit.available(), 1);
    assert!(credit.try_send());
    assert_eq!(credit.available(), 0);
}

#[test]
fn sending_at_zero_credit_waits() {
    let mut credit = FlowCredit::new(0);
    assert!(!credit.try_send());
    assert_eq!(credit.available(), 0);
    assert!(!credit.try_send());
    assert_eq!(credit.available(), 0);
}

#[test]
fn grant_adds_to_the_credit() {
    let mut credit = FlowCredit::new(3);
    credit.grant(4);
    assert_eq!(credit.available(), 7);
    credit.grant(0);
    assert_eq!(credit.available(), 7);
    credit.grant(u64::MAX - 7);
    assert_eq!(credit.available(), u64::MAX);
}

#[test]
fn grants_and_sends_interleave() {
    let mut credit = FlowCredit::new(1);
    let mut sent = 0u64;
    let mut waited = 0u64;
    for step in 0..10u64 {
        if step % 4 == 3 {
            credit.grant(2);
        }
        if credit.try_send() {
            sent += 1;
        } else {
            waited += 1;
        }
    }
    assert_eq!(sent, 5);
    assert_eq!(waited, 5);
    assert_eq!(sent + credit.available(), 1 + 2 * 2);
}
