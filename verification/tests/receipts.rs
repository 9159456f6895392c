use kakarot_core::client::{KakarotClient, StarknetConfig};
use kakarot_core::errors::{EthApiError, Operation};
use kakarot_core::event::Event;
use kakarot_core::felt::Felt;
use kakarot_core::primitives::{Address, U256};
use kakarot_core::receipt::{
    status_code, InvokeTransactionReceipt, MaybePendingTransactionReceipt,
    StarknetTransactionReceipt, StarknetTransactionStatus, CUMULATIVE_GAS_USED,
    EFFECTIVE_GAS_PRICE, GAS_USED, TRANSACTION_TYPE,
};
use kakarot_core::transaction::{InvokeTransaction, StarknetTransaction};

fn client() -> KakarotClient {
    KakarotClient::new(StarknetConfig {
        starknet_rpc: String::from("http://127.0.0.1:5050"),
        kakarot_address: Felt::from_u64(0xabcdef),
        proxy_account_class_hash: Felt::from_u64(0x1234),
    })
    .unwrap()
}

fn address(last: u8) -> Address {
    let mut bytes = [0x22u8; 20];
    bytes[19] = last;
    Address { bytes }
}

fn sender() -> Felt {
    let mut bytes = [0u8; 32];
    for (i, byte) in bytes.iter_mut().enumerate().skip(1) {
        *byte = i as u8;
    }
    Felt::from_bytes_be(bytes).unwrap()
}

fn invoke_tx() -> StarknetTransaction {
    StarknetTransaction::Invoke(InvokeTransaction {
        transaction_hash: Felt::from_u64(0x7777),
        sender_address: sender(),
        nonce: Felt::from_u64(3),
        calldata: vec![Felt::from_u64(1)],
    })
}

fn bridge_event(topic_low: u64) -> Event {
    Event {
        from_address: Felt::from_u64(0xabcdef),
        keys: vec![Felt::from_u64(topic_low), Felt::from_u64(0), Felt::from_u64(0x55)],
        data: vec![Felt::from_u64(0xaa)],
    }
}

fn invoke_receipt(status: StarknetTransactionStatus, events: Vec<Event>) -> MaybePendingTransactionReceipt {
    MaybePendingTransactionReceipt::Receipt(StarknetTransactionReceipt::Invoke(
        InvokeTransactionReceipt {
            transaction_hash: Felt::from_u64(0x7777),
            status,
            block_hash: Felt::from_u64(0x8888),
            block_number: 321,
            events,
        },
    ))
}

#[test]
fn status_codes_of_the_four_statuses() {
    assert_eq!(status_code(StarknetTransactionStatus::Rejected), 0);
    assert_eq!(status_code(StarknetTransactionStatus::Pending), 0);
    assert_eq!(status_code(StarknetTransactionStatus::AcceptedOnL1), 1);
    assert_eq!(status_code(StarknetTransactionStatus::AcceptedOnL2), 1);
}

#[test]
fn a_pending_receipt_has_no_ethereum_shape() {
    let client = client();
    let receipt = MaybePendingTransactionReceipt::PendingReceipt;
    assert_eq!(client.receipt_transaction_hash(&receipt), None);
    assert_eq!(
        client.transaction_receipt(
            &receipt,
            &invoke_tx(),
            Ok(vec![Felt::from_address(&address(1))]),
            Ok(vec![Felt::from_address(&address(1))])
        ),
        Ok(None)
    );
    assert_eq!(
        client.transaction_receipt(
            &receipt,
            &StarknetTransaction::Declare(Felt::from_u64(1)),
            Err(EthApiError::ProviderError(String::from("down"))),
            Err(EthApiError::ProviderError(String::from("down")))
        ),
        Ok(None)
    );
}

#[test]
fn a_receipt_of_another_kind_has_no_ethereum_shape() {
    let client = client();
    let kinds = [
        StarknetTransactionReceipt::L1Handler,
        StarknetTransactionReceipt::Declare,
        StarknetTransactionReceipt::Deploy,
        StarknetTransactionReceipt::DeployAccount,
    ];
    for kind in kinds {
        let receipt = MaybePendingTransactionReceipt::Receipt(kind);
        assert_eq!(client.receipt_transaction_hash(&receipt), None);
        assert_eq!(
            client.transaction_receipt(&receipt, &invoke_tx(), Ok(vec![]), Ok(vec![])),
            Ok(None)
        );
    }
}

#[test]
fn the_receipt_of_an_invoke_transaction() {
    let client = client();
    let foreign = Event {
        from_address: Felt::from_u64(0x1),
        keys: vec![Felt::from_u64(1)],
        data: vec![],
    };
    let malformed = Event { from_address: Felt::from_u64(0xabcdef), keys: vec![], data: vec![] };
    let receipt = invoke_receipt(
        StarknetTransactionStatus::AcceptedOnL2,
        vec![bridge_event(1), foreign, malformed, bridge_event(2)],
    );
    assert_eq!(client.receipt_transaction_hash(&receipt), Some(Felt::from_u64(0x7777)));
    let out = client
        .transaction_receipt(
            &receipt,
            &invoke_tx(),
            Ok(vec![Felt::from_address(&address(1))]),
            Ok(vec![Felt::from_address(&address(2))]),
        )
        .unwrap()
        .unwrap();
    assert_eq!(out.transaction_hash.unwrap().bytes, Felt::from_u64(0x7777).to_bytes_be());
    assert_eq!(out.transaction_index, None);
    assert_eq!(out.block_hash.unwrap().bytes, Felt::from_u64(0x8888).to_bytes_be());
    assert_eq!(out.block_number, Some(U256::from_u64(321)));
    assert_eq!(out.from, address(2));
    assert_eq!(out.to, None);
    assert_eq!(out.cumulative_gas_used, U256::from_u64(1_000_000));
    assert_eq!(out.gas_used, Some(U256::from_u64(500_000)));
    assert_eq!(out.contract_address, Some(address(1)));
    assert_eq!(out.state_root, None);
    assert_eq!(out.logs_bloom, [0u8; 256]);
    assert_eq!(out.status_code, Some(1));
    assert_eq!(out.effective_gas_price, 1_000_000);
    assert_eq!(out.transaction_type, 0);
    assert_eq!(out.logs.len(), 2);
    assert_eq!(out.logs[0].topics[0].bytes[31], 1);
    assert_eq!(out.logs[1].topics[0].bytes[31], 2);
    assert_eq!(out.logs[0].address.bytes[19], 0x55);
    assert_eq!(out.logs[0].data[31], 0xaa);
    assert_eq!(out.logs[0].block_hash, None);
    assert_eq!(out.logs[0].block_number, None);
    assert_eq!(out.logs[0].transaction_hash, None);
    assert_eq!(out.logs[0].log_index, None);
    assert_eq!(out.logs[0].transaction_index, None);
}

#[test]
fn the_fixed_values_of_a_receipt() {
    assert_eq!(CUMULATIVE_GAS_USED, 1_000_000);
    assert_eq!(GAS_USED, 500_000);
    assert_eq!(EFFECTIVE_GAS_PRICE, 1_000_000);
    assert_eq!(TRANSACTION_TYPE, 0);
}

#[test]
fn a_rejected_transaction_has_status_zero() {
    let client = client();
    let receipt = invoke_receipt(StarknetTransactionStatus::Rejected, vec![]);
    let out = client
        .transaction_receipt(
            &receipt,
            &invoke_tx(),
            Ok(vec![Felt::from_address(&address(1))]),
            Ok(vec![Felt::from_address(&address(1))]),
        )
        .unwrap()
        .unwrap();
    assert_eq!(out.status_code, Some(0));
    assert_eq!(out.logs.len(), 0);
}

#[test]
fn the_contract_address_falls_back_to_the_native_account() {
    let client = client();
    let receipt = invoke_receipt(StarknetTransactionStatus::AcceptedOnL1, vec![]);
    let out = client
        .transaction_receipt(
            &receipt,
            &invoke_tx(),
            Err(EthApiError::ProviderError(String::from("no such contract"))),
            Ok(vec![Felt::from_address(&address(2))]),
        )
        .unwrap()
        .unwrap();
    assert_eq!(out.contract_address, Some(sender().to_address()));
    assert_eq!(out.from, address(2));
}

#[test]
fn a_receipt_fails_where_the_transaction_has_no_ethereum_shape() {
    let client = client();
    let receipt = invoke_receipt(StarknetTransactionStatus::AcceptedOnL2, vec![]);
    assert_eq!(
        client.transaction_receipt(
            &receipt,
            &StarknetTransaction::Deploy(Felt::from_u64(1)),
            Ok(vec![Felt::from_address(&address(1))]),
            Ok(vec![Felt::from_address(&address(1))])
        ),
        Err(EthApiError::NotSupported(Operation::ToEthTransaction))
    );
    assert_eq!(
        client.transaction_receipt(
            &receipt,
            &invoke_tx(),
            Ok(vec![Felt::from_address(&address(1))]),
            Err(EthApiError::ProviderError(String::from("down")))
        ),
        Err(EthApiError::ProviderError(String::from("down")))
    );
    assert_eq!(
        client.transaction_receipt(
            &receipt,
            &invoke_tx(),
            Ok(vec![Felt::from_address(&address(1))]),
            Ok(vec![])
        ),
        Err(EthApiError::TranslationError(Operation::GetEvmAddress))
    );
}

#[test]
fn events_that_stand_for_no_log_are_left_out() {
    let client = client();
    let foreign = Event {
        from_address: Felt::from_u64(0x1),
        keys: vec![Felt::from_u64(1)],
        data: vec![],
    };
    assert_eq!(client.logs_of_events(&vec![]).len(), 0);
    assert_eq!(client.logs_of_events(&vec![foreign.clone()]).len(), 0);
    let logs = client.logs_of_events(&vec![foreign.clone(), bridge_event(7), foreign]);
    assert_eq!(logs.len(), 1);
    assert_eq!(logs[0].topics[0].bytes[31], 7);
}
