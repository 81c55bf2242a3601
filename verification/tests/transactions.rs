use solana_sdk::pubkey::Pubkey;
use transaction_cache::tx::{
    try_accounts, EncodedConfirmedTransactionWithStatusMeta, EncodedTransaction,
    EncodedTransactionWithStatusMeta, UiConfirmedBlock, UiMessage, UiRawMessage, UiTransaction,
    UiTransactionStatusMeta,
};
use transaction_cache::{GetAccounts, TxDetailLocal, TxSequence};
use transaction_cache::{AktoolResponse, TradeRecord};

fn json_tx(keys: Vec<String>, err: Option<String>) -> EncodedTransactionWithStatusMeta {
    EncodedTransactionWithStatusMeta {
        transaction: EncodedTransaction::Json(UiTransaction {
            signatures: vec!["s".to_string()],
            message: UiMessage::Raw(UiRawMessage { account_keys: keys }),
        }),
        meta: Some(UiTransactionStatusMeta { err }),
    }
}

fn key_text(n: u8) -> String {
    Pubkey::from([n; 32]).to_string()
}

#[test]
fn succeeded_needs_meta_without_error() {
    let ok = TxDetailLocal { slot: 1, transaction: json_tx(vec![], None), block_time: None };
    assert!(ok.succeeded());
    let failed = TxDetailLocal {
        slot: 1,
        transaction: json_tx(vec![], Some("InstructionError".to_string())),
        block_time: None,
    };
    assert!(!failed.succeeded());
    let no_meta = TxDetailLocal {
        slot: 1,
        transaction: EncodedTransactionWithStatusMeta { transaction: EncodedTransaction::Accounts, meta: None },
        block_time: None,
    };
    assert!(!no_meta.succeeded());
}

#[test]
fn detail_converts_both_ways() {
    let e = EncodedConfirmedTransactionWithStatusMeta {
        slot: 42,
        transaction: json_tx(vec![key_text(1)], None),
        block_time: Some(1700000000),
    };
    let d = TxDetailLocal::from(e);
    assert_eq!(d.slot, 42);
    assert_eq!(d.block_time, Some(1700000000));
    let back = EncodedConfirmedTransactionWithStatusMeta::from(d);
    assert_eq!(back.slot, 42);
    assert_eq!(back.block_time, Some(1700000000));
    assert!(back.accounts() == vec![[1u8; 32]]);
}

#[test]
fn accounts_of_raw_json_message() {
    let d = TxDetailLocal { slot: 0, transaction: json_tx(vec![key_text(1), key_text(2)], None), block_time: None };
    assert!(d.accounts_parse());
    assert_eq!(d.accounts(), vec![[1u8; 32], [2u8; 32]]);
    assert_eq!(try_accounts(&d), Some(vec![[1u8; 32], [2u8; 32]]));
}

#[test]
fn accounts_of_other_encodings_are_empty() {
    let binary = TxDetailLocal {
        slot: 0,
        transaction: EncodedTransactionWithStatusMeta {
            transaction: EncodedTransaction::Binary("AAAA".to_string()),
            meta: None,
        },
        block_time: None,
    };
    assert!(binary.accounts().is_empty());
    let parsed = TxDetailLocal {
        slot: 0,
        transaction: EncodedTransactionWithStatusMeta {
            transaction: EncodedTransaction::Json(UiTransaction { signatures: vec![], message: UiMessage::Parsed }),
            meta: None,
        },
        block_time: None,
    };
    assert!(parsed.accounts().is_empty());
}

#[test]
fn unparsable_account_key_is_refused() {
    let d = TxDetailLocal { slot: 0, transaction: json_tx(vec![key_text(1), "0OIl".to_string()], None), block_time: None };
    assert!(!d.accounts_parse());
    assert_eq!(try_accounts(&d), None);
}

fn block(txs: Option<Vec<EncodedTransactionWithStatusMeta>>) -> UiConfirmedBlock {
    UiConfirmedBlock {
        previous_blockhash: "p".to_string(),
        blockhash: "h".to_string(),
        parent_slot: 9,
        transactions: txs,
        signatures: None,
        block_time: Some(77),
        block_height: Some(3),
    }
}

#[test]
fn block_transactions_by_index() {
    let b = (10u64, block(Some(vec![json_tx(vec![key_text(5)], None), json_tx(vec![], Some("e".to_string()))])));
    assert_eq!(b.tx_count(), 2);
    let first = b.tx_at(0).unwrap();
    assert_eq!(first.slot, 10);
    assert_eq!(first.block_time, Some(77));
    assert!(first.accounts() == vec![[5u8; 32]]);
    let second = TxDetailLocal::from(b.tx_at(1).unwrap());
    assert!(!second.succeeded());
    assert!(b.tx_at(2).is_none());
}

#[test]
fn block_without_transactions() {
    let b = (10u64, block(None));
    assert_eq!(b.tx_count(), 0);
    assert!(b.tx_at(0).is_none());
}

#[test]
fn aktool_response_holds_trades() {
    let r = AktoolResponse {
        code: 0,
        data: Some(vec![TradeRecord {
            signature: "s".to_string(),
            signature_user: "u".to_string(),
            mint: "m".to_string(),
            slot: 1,
            index: 2,
            amount: "1.5".to_string(),
            is_buy: 1,
            is_success: true,
            price: "0.1".to_string(),
            block_time: 3,
            tip: None,
            gasFee: Some("5000".to_string()),
        }]),
    };
    assert_eq!(r.data.as_ref().unwrap()[0].slot, 1);
}
