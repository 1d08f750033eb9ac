use stellar_dapp::{Condition, ConditionType, Env, EscrowStatus, Party, StellarDAppContract};

fn escrow_env() -> Env {
    let mut env = Env::default();
    env.mock_all_auths();
    let _ = StellarDAppContract::initialize(&mut env, Party::new(String::from("admin")));
    env
}

fn condition_of(ctype: ConditionType, validator: Party) -> Condition {
    Condition { condition_type: ctype, parameters: String::from("{}"), validator }
}

fn kind_of(n: u64) -> ConditionType {
    match n % 3 {
        0 => ConditionType::TimeBased,
        1 => ConditionType::OracleBased,
        _ => ConditionType::ManualApproval,
    }
}

#[test]
fn property_escrow_fund_locking() {
    for iteration in 0..100u64 {
        let mut env = escrow_env();

        let sender = Party::new(format!("sender-{}", iteration));
        let recipient = Party::new(format!("recipient-{}", iteration));

        let amount: i128 = 1 + (iteration as i128 * 50_000);

        let mut conditions: Vec<Condition> = Vec::new();
        let num_conditions = (iteration % 3) as usize;
        for k in 0..num_conditions {
            conditions.push(condition_of(
                kind_of(iteration),
                Party::new(format!("validator-{}-{}", iteration, k)),
            ));
        }

        let expires_at = env.timestamp() + 1000 + (iteration * 100);

        let result = StellarDAppContract::create_escrow(
            &mut env,
            sender.clone(),
            recipient.clone(),
            amount,
            conditions.clone(),
            expires_at,
        );
        assert!(
            result.is_ok(),
            "Iteration {}: Escrow creation should succeed for valid inputs (amount={})",
            iteration,
            amount
        );

        let escrow_result = result.unwrap();

        assert!(escrow_result.escrow_id > 0, "Iteration {}: Escrow ID should be positive", iteration);

        assert_eq!(
            escrow_result.status,
            EscrowStatus::Active,
            "Iteration {}: Escrow status should be Active after creation",
            iteration
        );

        let details = StellarDAppContract::get_escrow_details(&env, escrow_result.escrow_id).unwrap();

        assert_eq!(details.amount, amount, "Iteration {}: Amount should be preserved", iteration);
        assert_eq!(details.sender, sender, "Iteration {}: Sender should be preserved", iteration);
        assert_eq!(details.recipient, recipient, "Iteration {}: Recipient should be preserved", iteration);
        assert_eq!(details.expires_at, expires_at, "Iteration {}: Expiration should be preserved", iteration);
        assert_eq!(
            details.status,
            EscrowStatus::Active,
            "Iteration {}: Stored status should be Active",
            iteration
        );

        let refund_result = StellarDAppContract::refund_escrow(&mut env, escrow_result.escrow_id);
        assert!(
            refund_result.is_err(),
            "Iteration {}: Refund should be rejected while escrow is not expired",
            iteration
        );

        let second = StellarDAppContract::create_escrow(&mut env, sender, recipient, amount, conditions, expires_at)
            .unwrap();
        assert_ne!(
            escrow_result.escrow_id, second.escrow_id,
            "Iteration {}: Escrow IDs should be unique",
            iteration
        );
    }
}

#[test]
fn property_condition_based_release() {
    for iteration in 0..100u64 {
        let mut env = escrow_env();

        let sender = Party::new(format!("sender-{}", iteration));
        let recipient = Party::new(format!("recipient-{}", iteration));

        let amount: i128 = 100 + (iteration as i128 * 7_777);

        let num_conditions = 1 + (iteration % 3) as usize;
        let mut conditions: Vec<Condition> = Vec::new();
        for i in 0..num_conditions {
            conditions.push(condition_of(
                kind_of(iteration + i as u64),
                Party::new(format!("validator-{}-{}", iteration, i)),
            ));
        }

        let expires_at = env.timestamp() + 5000 + (iteration * 200);

        let create_result =
            StellarDAppContract::create_escrow(&mut env, sender, recipient.clone(), amount, conditions, expires_at)
                .unwrap();

        let escrow_id = create_result.escrow_id;
        assert_eq!(
            create_result.status,
            EscrowStatus::Active,
            "Iteration {}: Escrow should start as Active",
            iteration
        );

        let conditions_met = StellarDAppContract::check_escrow_conditions(&env, escrow_id).unwrap();
        assert!(conditions_met, "Iteration {}: All conditions should be reported as met", iteration);

        let release_result = StellarDAppContract::release_escrow(&mut env, escrow_id);
        assert!(release_result.is_ok(), "Iteration {}: release_escrow call should not panic", iteration);
        let release = release_result.unwrap();

        assert_eq!(
            release.status,
            EscrowStatus::Released,
            "Iteration {}: Escrow should be Released when conditions are met",
            iteration
        );

        assert!(release.tx_hash.is_some(), "Iteration {}: Release should produce a transaction hash", iteration);

        let details = StellarDAppContract::get_escrow_details(&env, escrow_id).unwrap();
        assert_eq!(
            details.status,
            EscrowStatus::Released,
            "Iteration {}: Stored escrow status should be Released",
            iteration
        );
        assert_eq!(details.amount, amount, "Iteration {}: Amount should be preserved after release", iteration);
        assert_eq!(
            details.recipient, recipient,
            "Iteration {}: Recipient should be preserved after release",
            iteration
        );

        let double_release = StellarDAppContract::release_escrow(&mut env, escrow_id);
        assert!(
            double_release.is_err(),
            "Iteration {}: Releasing an already-released escrow should fail",
            iteration
        );

        let refund_attempt = StellarDAppContract::refund_escrow(&mut env, escrow_id);
        assert!(refund_attempt.is_err(), "Iteration {}: Refunding a released escrow should fail", iteration);
    }
}

#[test]
fn property_condition_based_release_via_process() {
    for iteration in 0..100u64 {
        let mut env = escrow_env();

        let sender = Party::new(format!("sender-{}", iteration));
        let recipient = Party::new(format!("recipient-{}", iteration));

        let amount: i128 = 500 + (iteration as i128 * 3_333);

        let mut conditions: Vec<Condition> = Vec::new();
        conditions.push(condition_of(kind_of(iteration), Party::new(format!("validator-{}", iteration))));

        let expires_at = env.timestamp() + 10_000 + (iteration * 50);

        let escrow_id =
            StellarDAppContract::create_escrow(&mut env, sender, recipient, amount, conditions, expires_at)
                .unwrap()
                .escrow_id;

        let process_result = StellarDAppContract::process_escrow(&mut env, escrow_id);
        assert!(process_result.is_ok(), "Iteration {}: process_escrow should not panic", iteration);
        let result = process_result.unwrap();

        assert_eq!(
            result.status,
            EscrowStatus::Released,
            "Iteration {}: process_escrow should auto-release when conditions are met",
            iteration
        );
        assert!(result.tx_hash.is_some(), "Iteration {}: Auto-release should produce a transaction hash", iteration);

        let details = StellarDAppContract::get_escrow_details(&env, escrow_id).unwrap();
        assert_eq!(
            details.status,
            EscrowStatus::Released,
            "Iteration {}: Stored status should be Released after process_escrow",
            iteration
        );
    }
}

#[test]
fn property_timeout_refund_mechanism() {
    for iteration in 0..100u64 {
        let mut env = escrow_env();

        let sender = Party::new(format!("sender-{}", iteration));
        let recipient = Party::new(format!("recipient-{}", iteration));

        let amount: i128 = 1 + (iteration as i128 * 12_345);

        let num_conditions = 1 + (iteration % 3) as usize;
        let mut conditions: Vec<Condition> = Vec::new();
        for i in 0..num_conditions {
            conditions.push(condition_of(
                kind_of(iteration + i as u64),
                Party::new(format!("validator-{}-{}", iteration, i)),
            ));
        }

        let expiration_offset = 100 + (iteration * 10);
        let expires_at = env.timestamp() + expiration_offset;

        let create_result =
            StellarDAppContract::create_escrow(&mut env, sender.clone(), recipient, amount, conditions, expires_at)
                .unwrap();

        let escrow_id = create_result.escrow_id;
        assert_eq!(
            create_result.status,
            EscrowStatus::Active,
            "Iteration {}: Escrow should start as Active",
            iteration
        );

        let early_refund = StellarDAppContract::refund_escrow(&mut env, escrow_id);
        assert!(early_refund.is_err(), "Iteration {}: Refund should be rejected before timeout expires", iteration);

        env.set_timestamp(expires_at + 1);

        let refund_result = StellarDAppContract::refund_escrow(&mut env, escrow_id);
        assert!(
            refund_result.is_ok(),
            "Iteration {}: refund_escrow call should not panic after timeout",
            iteration
        );
        let refund = refund_result.unwrap();

        assert_eq!(
            refund.status,
            EscrowStatus::Refunded,
            "Iteration {}: Escrow should be Refunded after timeout",
            iteration
        );

        assert!(refund.tx_hash.is_some(), "Iteration {}: Refund should produce a transaction hash", iteration);

        let details = StellarDAppContract::get_escrow_details(&env, escrow_id).unwrap();
        assert_eq!(
            details.status,
            EscrowStatus::Refunded,
            "Iteration {}: Stored escrow status should be Refunded",
            iteration
        );
        assert_eq!(
            details.sender, sender,
            "Iteration {}: Sender should be preserved (funds returned to sender)",
            iteration
        );
        assert_eq!(details.amount, amount, "Iteration {}: Amount should be preserved after refund", iteration);

        let double_refund = StellarDAppContract::refund_escrow(&mut env, escrow_id);
        assert!(
            double_refund.is_err(),
            "Iteration {}: Refunding an already-refunded escrow should fail",
            iteration
        );

        let release_attempt = StellarDAppContract::release_escrow(&mut env, escrow_id);
        assert!(release_attempt.is_err(), "Iteration {}: Releasing a refunded escrow should fail", iteration);
    }
}

#[test]
fn property_timeout_refund_via_process() {
    for iteration in 0..100u64 {
        let mut env = escrow_env();

        let sender = Party::new(format!("sender-{}", iteration));
        let recipient = Party::new(format!("recipient-{}", iteration));

        let amount: i128 = 500 + (iteration as i128 * 7_891);

        let mut conditions: Vec<Condition> = Vec::new();
        conditions.push(condition_of(kind_of(iteration), Party::new(format!("validator-{}", iteration))));

        let expiration_offset = 200 + (iteration * 5);
        let expires_at = env.timestamp() + expiration_offset;

        let escrow_id =
            StellarDAppContract::create_escrow(&mut env, sender.clone(), recipient, amount, conditions, expires_at)
                .unwrap()
                .escrow_id;

        env.set_timestamp(expires_at + 1 + iteration);

        let process_result = StellarDAppContract::process_escrow(&mut env, escrow_id);
        assert!(process_result.is_ok(), "Iteration {}: process_escrow should not panic", iteration);
        let result = process_result.unwrap();

        assert_eq!(
            result.status,
            EscrowStatus::Refunded,
            "Iteration {}: process_escrow should auto-refund when expired",
            iteration
        );
        assert!(result.tx_hash.is_some(), "Iteration {}: Auto-refund should produce a transaction hash", iteration);

        let details = StellarDAppContract::get_escrow_details(&env, escrow_id).unwrap();
        assert_eq!(
            details.status,
            EscrowStatus::Refunded,
            "Iteration {}: Stored status should be Refunded after process_escrow",
            iteration
        );
        assert_eq!(
            details.sender, sender,
            "Iteration {}: Sender preserved \u{2014} funds returned to original sender",
            iteration
        );
    }
}
