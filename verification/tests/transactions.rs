use kakarot_core::block::{
    ethers_block_number_to_starknet_block_id, receipt_block, BlockNumberOrTag, BlockTransactions,
    StarknetBlockHeader, SyncStatus, SyncStatusType,
};
use kakarot_core::client::{KakarotClient, StarknetConfig};
use kakarot_core::errors::{EthApiError, Operation};
use kakarot_core::felt::Felt;
use kakarot_core::primitives::{Address, H256, U256};
use kakarot_core::provider::StarknetBlockId;
use kakarot_core::receipt::{
    InvokeTransactionReceipt, MaybePendingTransactionReceipt, StarknetTransactionReceipt,
    StarknetTransactionStatus,
};
use kakarot_core::selectors::Entrypoint;
use kakarot_core::transaction::{
    raw_starknet_calldata, DecodedTransaction, InvokeTransaction, StarknetTransaction,
    Transaction, MAX_FEE, MAX_PRIORITY_FEE_PER_GAS,
};

fn client() -> KakarotClient {
    KakarotClient::new(StarknetConfig {
        starknet_rpc: String::from("http://127.0.0.1:5050"),
        kakarot_address: Felt::from_u64(0xabcdef),
        proxy_account_class_hash: Felt::from_u64(0x1234),
    })
    .unwrap()
}

fn address(last: u8) -> Address {
    let mut bytes = [0x44u8; 20];
    bytes[19] = last;
    Address { bytes }
}

fn invoke_tx(hash: u64) -> StarknetTransaction {
    StarknetTransaction::Invoke(InvokeTransaction {
        transaction_hash: Felt::from_u64(hash),
        sender_address: Felt::from_u64(0x5e),
        nonce: Felt::from_u64(3),
        calldata: vec![Felt::from_u64(0x0a), Felt::from_u64(0x0b)],
    })
}

fn confirmed() -> MaybePendingTransactionReceipt {
    MaybePendingTransactionReceipt::Receipt(StarknetTransactionReceipt::Invoke(
        InvokeTransactionReceipt {
            transaction_hash: Felt::from_u64(0x7777),
            status: StarknetTransactionStatus::AcceptedOnL2,
            block_hash: Felt::from_u64(0x8888),
            block_number: 321,
            events: vec![],
        },
    ))
}

fn eth_tx(hash: u64) -> Transaction {
    invoke_tx(hash)
        .to_eth_transaction(Ok(vec![Felt::from_address(&address(1))]), None, None, None)
        .unwrap()
}

fn down() -> EthApiError {
    EthApiError::ProviderError(String::from("down"))
}

#[test]
fn an_invoke_transaction_in_its_ethereum_shape() {
    let block_hash = Some(H256 { bytes: [5u8; 32] });
    let tx = invoke_tx(0x7777)
        .to_eth_transaction(
            Ok(vec![Felt::from_address(&address(1))]),
            block_hash,
            Some(U256::from_u64(9)),
            Some(U256::from_u64(2)),
        )
        .unwrap();
    assert_eq!(tx.hash.bytes, Felt::from_u64(0x7777).to_bytes_be());
    assert_eq!(tx.nonce, U256::from_u64(3));
    assert_eq!(tx.from, address(1));
    assert_eq!(tx.to, None);
    let mut input = vec![0u8; 64];
    input[31] = 0x0a;
    input[63] = 0x0b;
    assert_eq!(tx.input, input);
    assert_eq!(tx.max_priority_fee_per_gas, Some(0));
    assert_eq!(MAX_PRIORITY_FEE_PER_GAS, 0);
    assert_eq!(tx.block_hash, block_hash);
    assert_eq!(tx.block_number, Some(U256::from_u64(9)));
    assert_eq!(tx.transaction_index, Some(U256::from_u64(2)));
}

#[test]
fn only_an_invoke_transaction_has_an_ethereum_shape() {
    let others = [
        StarknetTransaction::L1Handler(Felt::from_u64(1)),
        StarknetTransaction::Declare(Felt::from_u64(2)),
        StarknetTransaction::Deploy(Felt::from_u64(3)),
        StarknetTransaction::DeployAccount(Felt::from_u64(4)),
    ];
    for (i, other) in others.iter().enumerate() {
        assert_eq!(other.transaction_hash(), Felt::from_u64(i as u64 + 1));
        assert_eq!(
            other.sender_address(),
            Err(EthApiError::NotSupported(Operation::ToEthTransaction))
        );
        assert_eq!(
            other.to_eth_transaction(Ok(vec![Felt::from_u64(1)]), None, None, None),
            Err(EthApiError::NotSupported(Operation::ToEthTransaction))
        );
        assert_eq!(
            other.to_eth_transaction(Err(down()), None, None, None),
            Err(EthApiError::NotSupported(Operation::ToEthTransaction))
        );
    }
    assert_eq!(invoke_tx(9).transaction_hash(), Felt::from_u64(9));
    assert_eq!(invoke_tx(9).sender_address(), Ok(Felt::from_u64(0x5e)));
}

#[test]
fn a_sender_that_cannot_be_resolved_fails_the_translation() {
    assert_eq!(invoke_tx(1).to_eth_transaction(Err(down()), None, None, None), Err(down()));
    assert_eq!(
        invoke_tx(1).to_eth_transaction(Ok(vec![]), None, None, None),
        Err(EthApiError::TranslationError(Operation::GetEvmAddress))
    );
}

#[test]
fn relaying_needs_bytes_a_transaction_and_a_signer() {
    let client = client();
    let decoded = DecodedTransaction { nonce: 1, signer: Some(address(1)) };
    assert_eq!(
        client.send_transaction_request(vec![], Some(decoded)),
        Err(EthApiError::EmptyPayload)
    );
    assert_eq!(client.send_transaction_request(vec![], None), Err(EthApiError::EmptyPayload));
    assert_eq!(
        client.send_transaction_request(vec![0xc0], None),
        Err(EthApiError::DecodeError(Operation::SendTransaction))
    );
    assert_eq!(
        client.send_transaction_request(
            vec![0xc0],
            Some(DecodedTransaction { nonce: 1, signer: None })
        ),
        Err(EthApiError::SignatureError)
    );
    let (_, call) = client.send_transaction_request(vec![0xc0], Some(decoded)).unwrap();
    assert_eq!(
        call,
        client.compute_starknet_address_request(&address(1), &StarknetBlockId::Latest)
    );
}

#[test]
fn the_native_transaction_that_relays_a_signed_one() {
    let client = client();
    let account = Felt::from_u64(0x4242);
    let decoded = DecodedTransaction { nonce: 17, signer: Some(address(1)) };
    let relay = || client.send_transaction_request(vec![0xf8, 0x01], Some(decoded)).unwrap().0;
    let request = client.send_transaction(relay(), Ok(vec![account])).unwrap();
    assert_eq!(request.max_fee, Felt::from_u64(100_000_000_000_000_000));
    assert_eq!(MAX_FEE, 100_000_000_000_000_000);
    assert_eq!(request.signature, vec![]);
    assert_eq!(request.nonce, Felt::from_u64(17));
    assert_eq!(request.sender_address, account);
    assert_eq!(
        request.calldata,
        vec![
            Felt::from_u64(1),
            Felt::from_u64(0xabcdef),
            Entrypoint::EthSendTransaction.selector(),
            Felt::from_u64(0),
            Felt::from_u64(2),
            Felt::from_u64(2),
            Felt::from_u64(0xf8),
            Felt::from_u64(0x01),
        ]
    );
    assert_eq!(request.calldata, raw_starknet_calldata(Felt::from_u64(0xabcdef), &vec![0xf8, 0x01]));
    assert_eq!(
        client.send_transaction(relay(), Ok(vec![])),
        Err(EthApiError::TranslationError(Operation::ComputeStarknetAddress))
    );
    assert_eq!(client.send_transaction(relay(), Err(down())), Err(down()));
}

#[test]
fn the_hash_of_a_submitted_transaction() {
    let client = client();
    let hash = client.submit_starknet_transaction(Ok(Felt::from_u64(0xbeef))).unwrap();
    assert_eq!(hash.bytes, Felt::from_u64(0xbeef).to_bytes_be());
    assert_eq!(client.submit_starknet_transaction(Err(down())), Err(down()));
}

#[test]
fn a_receipt_places_a_transaction_in_its_block() {
    let (hash, number) = receipt_block(&confirmed());
    assert_eq!(hash.unwrap().bytes, Felt::from_u64(0x8888).to_bytes_be());
    assert_eq!(number, Some(U256::from_u64(321)));
    assert_eq!(receipt_block(&MaybePendingTransactionReceipt::PendingReceipt), (None, None));
    assert_eq!(
        receipt_block(&MaybePendingTransactionReceipt::Receipt(StarknetTransactionReceipt::Declare)),
        (None, None)
    );
}

#[test]
fn a_transaction_found_by_its_hash() {
    let client = client();
    let lookup = || Ok(vec![Felt::from_address(&address(1))]);
    let tx = client.transaction_by_hash(&invoke_tx(0x7777), &confirmed(), lookup()).unwrap();
    assert_eq!(tx.block_hash.unwrap().bytes, Felt::from_u64(0x8888).to_bytes_be());
    assert_eq!(tx.block_number, Some(U256::from_u64(321)));
    assert_eq!(tx.transaction_index, None);
    assert_eq!(tx.from, address(1));
    let pending = client
        .transaction_by_hash(
            &invoke_tx(0x7777),
            &MaybePendingTransactionReceipt::PendingReceipt,
            lookup(),
        )
        .unwrap();
    assert_eq!(pending.block_hash, None);
    assert_eq!(pending.block_number, None);
    assert_eq!(
        client.transaction_by_hash(
            &StarknetTransaction::Declare(Felt::from_u64(1)),
            &confirmed(),
            lookup()
        ),
        Err(EthApiError::NotSupported(Operation::ToEthTransaction))
    );
}

#[test]
fn a_transaction_found_by_its_place_in_a_block() {
    let client = client();
    let tx = client
        .transaction_by_block_id_and_index(
            &invoke_tx(0x7777),
            &confirmed(),
            Ok(vec![Felt::from_address(&address(1))]),
            4,
        )
        .unwrap();
    assert_eq!(tx.transaction_index, Some(U256::from_u64(4)));
    assert_eq!(tx.block_number, Some(U256::from_u64(321)));
    assert_eq!(
        client.transaction_by_block_id_and_index(&invoke_tx(1), &confirmed(), Err(down()), 4),
        Err(down())
    );
}

#[test]
fn failed_translations_are_left_out_of_a_block() {
    let client = client();
    let translations = vec![
        Ok(eth_tx(1)),
        Err(EthApiError::NotSupported(Operation::ToEthTransaction)),
        Ok(eth_tx(2)),
        Err(down()),
        Ok(eth_tx(3)),
    ];
    let kept = client.filter_starknet_into_eth_txs(translations);
    assert_eq!(kept, BlockTransactions::Full(vec![eth_tx(1), eth_tx(2), eth_tx(3)]));
    assert_eq!(client.get_transaction_count_by_block(&kept), 3);
    assert_eq!(client.filter_starknet_into_eth_txs(vec![]), BlockTransactions::Full(vec![]));
    assert_eq!(
        client.filter_starknet_into_eth_txs(vec![Err(down())]),
        BlockTransactions::Full(vec![])
    );
}

#[test]
fn hashes_are_not_counted_as_transactions() {
    let client = client();
    let hashes = BlockTransactions::Hashes(vec![H256 { bytes: [1u8; 32] }]);
    assert_eq!(client.get_transaction_count_by_block(&hashes), 0);
    assert_eq!(client.get_transaction_count_by_block(&BlockTransactions::Full(vec![])), 0);
}

#[test]
fn a_confirmed_block_in_its_ethereum_shape() {
    let client = client();
    let mut sequencer = [0u8; 32];
    for (i, byte) in sequencer.iter_mut().enumerate().skip(1) {
        *byte = i as u8;
    }
    let native = StarknetBlockHeader::Block {
        block_hash: Felt::from_u64(0xb10c),
        parent_hash: Felt::from_u64(0xb10b),
        block_number: 77,
        new_root: Felt::from_u64(0x5007),
        timestamp: 1_700_000_000,
        sequencer_address: Felt::from_bytes_be(sequencer).unwrap(),
    };
    let block = client.block_with_tx_hashes(&native, &vec![Felt::from_u64(1), Felt::from_u64(2)]);
    assert_eq!(block.header.hash.unwrap().bytes, Felt::from_u64(0xb10c).to_bytes_be());
    assert_eq!(block.header.parent_hash.bytes, Felt::from_u64(0xb10b).to_bytes_be());
    assert_eq!(block.header.number, Some(U256::from_u64(77)));
    assert_eq!(block.header.state_root.bytes, Felt::from_u64(0x5007).to_bytes_be());
    assert_eq!(block.header.timestamp, U256::from_u64(1_700_000_000));
    assert_eq!(block.header.miner.bytes[..], sequencer[12..]);
    assert_eq!(block.header.base_fee_per_gas, U256::from_u64(1));
    assert_eq!(
        block.transactions,
        BlockTransactions::Hashes(vec![
            H256 { bytes: Felt::from_u64(1).to_bytes_be() },
            H256 { bytes: Felt::from_u64(2).to_bytes_be() },
        ])
    );
    assert_eq!(client.block_header(&native), block.header);
    let (hash, number) = client.block_position(&native);
    assert_eq!(hash, block.header.hash);
    assert_eq!(number, Some(U256::from_u64(77)));
}

#[test]
fn a_pending_block_in_its_ethereum_shape() {
    let client = client();
    let native = StarknetBlockHeader::PendingBlock {
        parent_hash: Felt::from_u64(0xb10b),
        timestamp: 12,
        sequencer_address: Felt::from_u64(0x5e9),
    };
    let block = client.block_with_txs(
        &native,
        vec![Ok(eth_tx(1)), Err(down()), Ok(eth_tx(2))],
    );
    assert_eq!(block.header.hash, None);
    assert_eq!(block.header.number, None);
    assert_eq!(block.header.parent_hash.bytes, Felt::from_u64(0xb10b).to_bytes_be());
    assert_eq!(block.header.state_root.bytes, [0u8; 32]);
    assert_eq!(block.header.timestamp, U256::from_u64(12));
    assert_eq!(block.header.miner.bytes[18..], [0x05, 0xe9]);
    assert_eq!(block.transactions, BlockTransactions::Full(vec![eth_tx(1), eth_tx(2)]));
    assert_eq!(client.block_position(&native), (None, None));
}

#[test]
fn the_progress_of_a_node() {
    let client = client();
    assert_eq!(client.syncing(SyncStatusType::NotSyncing), SyncStatus::NotSyncing);
    let status = client.syncing(SyncStatusType::Syncing {
        starting_block_num: 1,
        current_block_num: 50,
        highest_block_num: 90,
    });
    match status {
        SyncStatus::Info(info) => {
            assert_eq!(info.starting_block, U256::from_u64(1));
            assert_eq!(info.current_block, U256::from_u64(50));
            assert_eq!(info.highest_block, U256::from_u64(90));
            assert_eq!(info.warp_chunks_amount, None);
            assert_eq!(info.warp_chunks_processed, None);
        }
        SyncStatus::NotSyncing => panic!("a node that is catching up reports how far it has come"),
    }
}

#[test]
fn ethereum_names_of_blocks_on_the_ledger() {
    let latest = StarknetBlockId::Latest;
    assert_eq!(ethers_block_number_to_starknet_block_id(BlockNumberOrTag::Latest), latest);
    assert_eq!(ethers_block_number_to_starknet_block_id(BlockNumberOrTag::Safe), latest);
    assert_eq!(ethers_block_number_to_starknet_block_id(BlockNumberOrTag::Finalized), latest);
    assert_eq!(
        ethers_block_number_to_starknet_block_id(BlockNumberOrTag::Pending),
        StarknetBlockId::Pending
    );
    assert_eq!(
        ethers_block_number_to_starknet_block_id(BlockNumberOrTag::Earliest),
        StarknetBlockId::Number(0)
    );
    assert_eq!(
        ethers_block_number_to_starknet_block_id(BlockNumberOrTag::Number(31)),
        StarknetBlockId::Number(31)
    );
}

#[test]
fn the_sender_of_a_transaction_is_asked_at_the_latest_block() {
    let client = client();
    assert_eq!(
        client.sender_lookup_request(&invoke_tx(1)),
        Ok(client.get_evm_address_request(&Felt::from_u64(0x5e), &StarknetBlockId::Latest))
    );
    assert_eq!(
        client.sender_lookup_request(&StarknetTransaction::Deploy(Felt::from_u64(1))),
        Err(EthApiError::NotSupported(Operation::ToEthTransaction))
    );
}

#[test]
fn a_hash_names_a_transaction_only_if_it_is_a_field_element() {
    let hash = H256 { bytes: Felt::from_u64(0x1234).to_bytes_be() };
    assert_eq!(hash.to_felt(Operation::TransactionReceipt), Ok(Felt::from_u64(0x1234)));
    assert_eq!(
        H256 { bytes: [0xff; 32] }.to_felt(Operation::TransactionReceipt),
        Err(EthApiError::TranslationError(Operation::TransactionReceipt))
    );
}
