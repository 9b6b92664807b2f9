use solistener::block::{Block, RawBlock, RawReward};
use solistener::block_listener::Processor;
use solistener::transaction::{
    check_raw_transaction, trim_decimals, ProcessError, RawDecodedTransaction, RawInstruction,
    RawMeta, RawTokenBalance, RawTransactionEntry, Transaction,
};

#[test]
fn trim_cuts_past_nine_decimals() {
    assert_eq!(trim_decimals(&String::from("123.1234567891")), "123.123456789");
}

#[test]
fn trim_leaves_integer_amounts_alone() {
    assert_eq!(trim_decimals(&String::from("5")), "5");
}

#[test]
fn trim_leaves_nine_decimals_alone() {
    assert_eq!(trim_decimals(&String::from("1.123456789")), "1.123456789");
}

#[test]
fn trim_edge_cases() {
    assert_eq!(trim_decimals(&String::from("")), "");
    assert_eq!(trim_decimals(&String::from("0.5")), "0.5");
    assert_eq!(trim_decimals(&String::from(".12345678901")), ".123456789");
}

fn raw_meta() -> RawMeta {
    RawMeta {
        succeeded: true,
        error: None,
        fee: 5000,
        pre_balances: vec![10_000, 2_000],
        post_balances: vec![4_000, 2_500],
        pre_token_balances: Some(vec![RawTokenBalance {
            account_index: 1,
            mint: String::from("mintA"),
            ui_amount_string: String::from("123.1234567891"),
        }]),
        post_token_balances: Some(vec![RawTokenBalance {
            account_index: 1,
            mint: String::from("mintA"),
            ui_amount_string: String::from("124.5"),
        }]),
        log_messages: Some(vec![String::from("log one"), String::from("log two")]),
    }
}

fn raw_transaction() -> RawDecodedTransaction {
    RawDecodedTransaction {
        signatures: vec![String::from("sig-one"), String::from("sig-two")],
        account_keys: vec![String::from("alice"), String::from("bob")],
        instructions: vec![RawInstruction {
            program_id_index: 1,
            accounts: vec![0, 1],
            data: vec![1, 2, 3],
        }],
    }
}

#[test]
fn transaction_row_is_fully_mapped() {
    let t = Transaction::new(&Some(1_650_000_000), 42, &raw_meta(), &raw_transaction());
    assert_eq!(t.block_timestamp, Some(1_650_000_000));
    assert_eq!(t.slot, 42);
    assert_eq!(t.transaction_id, "sig-one");
    assert!(t.is_successful);
    assert_eq!(t.error, "");
    assert_eq!(t.fee, 5000);

    assert_eq!(t.accounts.len(), 2);
    assert_eq!(t.accounts[0].address, "alice");
    assert_eq!(t.accounts[0].pre_sol_balance, 10_000);
    assert_eq!(t.accounts[0].post_sol_balance, 4_000);
    assert!(t.accounts[0].pre_token_balances.is_empty());
    assert_eq!(t.accounts[1].address, "bob");
    assert_eq!(t.accounts[1].pre_token_balances.len(), 1);
    assert_eq!(t.accounts[1].pre_token_balances[0].mint, "mintA");
    // The token amount went through the truncation rule.
    assert_eq!(t.accounts[1].pre_token_balances[0].amount, "123.123456789");
    assert_eq!(t.accounts[1].post_token_balances[0].amount, "124.5");

    assert_eq!(t.instructions.len(), 1);
    assert_eq!(t.instructions[0].program_id, "bob");
    assert_eq!(t.instructions[0].accounts, vec![String::from("alice"), String::from("bob")]);
    // Base64 of the bytes [1, 2, 3] under the standard alphabet.
    assert_eq!(t.instructions[0].data, "AQID");

    assert_eq!(t.log_messages, vec![String::from("log one"), String::from("log two")]);
}

#[test]
fn error_text_is_tied_to_the_success_flag() {
    // Well-formed metadata carries an error exactly when execution failed,
    // and a carried error text is never empty.
    let tx = raw_transaction();
    assert!(check_raw_transaction(&tx, &raw_meta()));

    let mut succeeded_with_error = raw_meta();
    succeeded_with_error.error = Some(String::from("oops"));
    assert!(!check_raw_transaction(&tx, &succeeded_with_error));

    let mut failed_without_error = raw_meta();
    failed_without_error.succeeded = false;
    assert!(!check_raw_transaction(&tx, &failed_without_error));

    let mut empty_error_text = raw_meta();
    empty_error_text.succeeded = false;
    empty_error_text.error = Some(String::new());
    assert!(!check_raw_transaction(&tx, &empty_error_text));
}

#[test]
fn failed_transaction_keeps_error_text() {
    let mut meta = raw_meta();
    meta.succeeded = false;
    meta.error = Some(String::from("InstructionError"));
    meta.log_messages = None;
    let t = Transaction::new(&None, 7, &meta, &raw_transaction());
    assert!(!t.is_successful);
    assert_eq!(t.error, "InstructionError");
    assert!(t.log_messages.is_empty());
    assert_eq!(t.block_timestamp, None);
}

fn raw_block(transactions: Vec<RawTransactionEntry>) -> RawBlock {
    RawBlock {
        block_time: Some(1_650_000_000),
        parent_slot: 41,
        blockhash: String::from("hash42"),
        previous_blockhash: String::from("hash41"),
        rewards: vec![RawReward {
            pubkey: String::from("validator"),
            lamports: -7,
            post_balance: 993,
            reward_type: Some(String::from("Fee")),
        }],
        transactions,
    }
}

#[test]
fn block_row_is_fully_mapped() {
    let b = Block::new(42, &raw_block(Vec::new()));
    assert_eq!(b.slot, 42);
    assert_eq!(b.parent_slot, 41);
    assert_eq!(b.blockhash, "hash42");
    assert_eq!(b.previous_blockhash, "hash41");
    assert_eq!(b.block_timestamp, Some(1_650_000_000));
    assert_eq!(b.get_timestamp(), Some(1_650_000_000));
    assert_eq!(b.rewards.len(), 1);
    assert_eq!(b.rewards[0].pubkey, "validator");
    assert_eq!(b.rewards[0].lamports, -7);
    assert_eq!(b.rewards[0].post_balance, 993);
    assert_eq!(b.rewards[0].reward_type, Some(String::from("Fee")));
}

fn good_entry() -> RawTransactionEntry {
    RawTransactionEntry {
        meta: Some(raw_meta()),
        transaction: Some(raw_transaction()),
        signature_valid: true,
    }
}

#[test]
fn processor_builds_batch_for_clean_block() {
    let mut p = Processor::new();
    let r = p.process_block(42, &raw_block(vec![good_entry(), good_entry()]));
    assert!(r.is_ok());
    assert!(p.committer.block_pending.is_some());
    assert_eq!(p.committer.transactions_pending.len(), 2);
    // Each row inherits the block's timestamp.
    assert_eq!(p.committer.transactions_pending[0].block_timestamp, Some(1_650_000_000));
    assert_eq!(p.committer.transactions_pending[1].slot, 42);
}

#[test]
fn missing_meta_is_fatal() {
    let mut entry = good_entry();
    entry.meta = None;
    let mut p = Processor::new();
    let r = p.process_block(42, &raw_block(vec![good_entry(), entry]));
    assert_eq!(r, Err(ProcessError::MissingMeta));
}

#[test]
fn decode_failure_is_fatal() {
    let mut entry = good_entry();
    entry.transaction = None;
    let mut p = Processor::new();
    let r = p.process_block(42, &raw_block(vec![entry]));
    assert_eq!(r, Err(ProcessError::DecodeFailed));
}

#[test]
fn signature_failure_is_fatal() {
    let mut entry = good_entry();
    entry.signature_valid = false;
    let mut p = Processor::new();
    let r = p.process_block(42, &raw_block(vec![entry]));
    assert_eq!(r, Err(ProcessError::SignatureInvalid));
}
