use stellar_dapp::{Env, InvoiceStatus, Party, StellarDAppContract};

fn invoice_env() -> Env {
    let mut env = Env::default();
    env.mock_all_auths();
    let _ = StellarDAppContract::initialize(&mut env, Party::new(String::from("admin")));
    env
}

#[test]
fn property_invoice_approval_workflow() {
    for iteration in 0..100u64 {
        let mut env = invoice_env();

        let creator = Party::new(format!("creator-{}", iteration));
        let client_addr = Party::new(format!("client-{}", iteration));

        let amount = 1000i128 + (iteration as i128 * 10000);
        let current_time = env.timestamp();
        let due_date = current_time + 1000 + (iteration * 100);

        let description = String::from("Test invoice");

        let create_result = StellarDAppContract::create_invoice(
            &mut env,
            creator.clone(),
            client_addr.clone(),
            amount,
            description,
            due_date,
        );

        assert!(create_result.is_ok(), "Invoice creation should succeed");
        let invoice_id = create_result.unwrap().invoice_id;

        let sent_result = StellarDAppContract::mark_invoice_sent(&mut env, invoice_id, creator);
        assert!(sent_result.is_ok(), "Marking invoice as sent should succeed");

        let approve_result = StellarDAppContract::approve_invoice(&mut env, invoice_id, client_addr);
        assert!(approve_result.is_ok(), "Invoice approval should succeed");

        let approval_result = approve_result.unwrap();
        assert_eq!(
            approval_result.status,
            InvoiceStatus::Approved,
            "Invoice status should be Approved after approval"
        );

        let execute_result = StellarDAppContract::execute_invoice(&mut env, invoice_id);
        assert!(execute_result.is_ok(), "Invoice execution should succeed after approval");

        let execution_result = execute_result.unwrap();
        assert_eq!(
            execution_result.status,
            InvoiceStatus::Executed,
            "Invoice status should be Executed after execution"
        );

        assert!(execution_result.tx_hash.is_some(), "Transaction hash should be generated after execution");

        let final_invoice = StellarDAppContract::get_invoice(&env, invoice_id);
        assert!(final_invoice.is_ok(), "Should be able to retrieve invoice");

        let invoice = final_invoice.unwrap();
        assert_eq!(invoice.status, InvoiceStatus::Executed, "Final invoice status should be Executed");
        assert_eq!(invoice.amount, amount, "Invoice amount should be preserved");
        assert!(invoice.approved_at.is_some(), "Approval timestamp should be recorded");
    }
}

#[test]
fn property_invoice_expiration_handling() {
    for iteration in 0..100u64 {
        let mut env = invoice_env();

        let creator = Party::new(format!("creator-{}", iteration));
        let client_addr = Party::new(format!("client-{}", iteration));

        let amount = 1000i128 + (iteration as i128 * 5000);
        let current_time = env.timestamp();
        let due_date = current_time + 10 + (iteration * 10);

        let description = String::from("Test invoice for expiration");

        let create_result = StellarDAppContract::create_invoice(
            &mut env,
            creator.clone(),
            client_addr.clone(),
            amount,
            description,
            due_date,
        );

        assert!(create_result.is_ok(), "Invoice creation should succeed");
        let invoice_id = create_result.unwrap().invoice_id;

        let sent_result = StellarDAppContract::mark_invoice_sent(&mut env, invoice_id, creator);
        assert!(sent_result.is_ok(), "Marking invoice as sent should succeed");

        env.set_timestamp(due_date + 1);

        let expiration_check = StellarDAppContract::check_invoice_expiration(&mut env, invoice_id);
        assert!(expiration_check.is_ok(), "Expiration check should succeed");

        let expiration_result = expiration_check.unwrap();
        assert_eq!(
            expiration_result.status,
            InvoiceStatus::Expired,
            "Invoice should be marked as Expired after due date"
        );

        let invoice = StellarDAppContract::get_invoice(&env, invoice_id).unwrap();
        assert_eq!(invoice.status, InvoiceStatus::Expired, "Invoice status should be Expired in storage");

        let approve_result = StellarDAppContract::approve_invoice(&mut env, invoice_id, client_addr);
        assert!(approve_result.is_err(), "Approving expired invoice should fail");

        let execute_result = StellarDAppContract::execute_invoice(&mut env, invoice_id);
        assert!(execute_result.is_err(), "Executing expired invoice should fail");
    }
}
