use kakarot_core::client::{KakarotClient, StarknetConfig};
use kakarot_core::errors::EthApiError;
use kakarot_core::event::{event_to_log, reconstruct_topic, Event, StarknetEvent};
use kakarot_core::felt::Felt;
use kakarot_core::primitives::{H256, U256};

fn client() -> KakarotClient {
    KakarotClient::new(StarknetConfig {
        starknet_rpc: String::from("http://127.0.0.1:5050"),
        kakarot_address: Felt::from_u64(0xabcdef),
        proxy_account_class_hash: Felt::from_u64(0x1234),
    })
    .unwrap()
}

fn felt_with(index: usize, byte: u8) -> Felt {
    let mut bytes = [0u8; 32];
    bytes[index] = byte;
    Felt::from_bytes_be(bytes).unwrap()
}

#[test]
fn topic_of_low_one_high_zero() {
    let topic = reconstruct_topic(&Felt::from_u64(1), &Felt::from_u64(0)).unwrap();
    let mut expected = [0u8; 32];
    expected[31] = 1;
    assert_eq!(topic.bytes, expected);
}

#[test]
fn topic_high_half_is_shifted_by_128_bits() {
    let topic = reconstruct_topic(&Felt::from_u64(2), &Felt::from_u64(3)).unwrap();
    let mut expected = [0u8; 32];
    expected[15] = 3;
    expected[31] = 2;
    assert_eq!(topic.bytes, expected);
}

#[test]
fn topic_of_full_halves() {
    let mut half = [0u8; 32];
    for byte in half.iter_mut().skip(16) {
        *byte = 0xff;
    }
    let half = Felt::from_bytes_be(half).unwrap();
    let topic = reconstruct_topic(&half, &half).unwrap();
    assert_eq!(topic.bytes, [0xffu8; 32]);
}

#[test]
fn topic_carries_from_the_low_half() {
    // low = 2^128 + 5 and high = 7 give 8 * 2^128 + 5
    let mut low = [0u8; 32];
    low[15] = 1;
    low[31] = 5;
    let low = Felt::from_bytes_be(low).unwrap();
    let topic = reconstruct_topic(&low, &Felt::from_u64(7)).unwrap();
    let mut expected = [0u8; 32];
    expected[15] = 8;
    expected[31] = 5;
    assert_eq!(topic.bytes, expected);
}

#[test]
fn topic_that_does_not_fit_is_refused() {
    // high = 2^128 puts the topic at 2^256
    let high = felt_with(15, 1);
    assert_eq!(reconstruct_topic(&Felt::from_u64(0), &high), None);
}

#[test]
fn log_of_an_event_with_two_topics() {
    let client = client();
    let mut emitter = [0u8; 32];
    emitter[11] = 0x77;
    for (i, byte) in emitter.iter_mut().enumerate().skip(12) {
        *byte = i as u8;
    }
    let event = Event {
        from_address: Felt::from_u64(0xabcdef),
        keys: vec![
            Felt::from_u64(1),
            Felt::from_u64(0),
            Felt::from_u64(0x10),
            Felt::from_u64(0x20),
            Felt::from_bytes_be(emitter).unwrap(),
        ],
        data: vec![Felt::from_u64(0x41), Felt::from_u64(0x42)],
    };
    let block_hash = Some(H256 { bytes: [9u8; 32] });
    let block_number = Some(U256::from_u64(12));
    let log = StarknetEvent::new(event)
        .to_eth_log(&client, block_hash, block_number, None, Some(U256::from_u64(3)), None)
        .unwrap();
    let mut address = [0u8; 20];
    for (i, byte) in address.iter_mut().enumerate() {
        *byte = (i + 12) as u8;
    }
    assert_eq!(log.address.bytes, address);
    assert_eq!(log.topics.len(), 2);
    let mut first = [0u8; 32];
    first[31] = 1;
    assert_eq!(log.topics[0].bytes, first);
    let mut second = [0u8; 32];
    second[15] = 0x20;
    second[31] = 0x10;
    assert_eq!(log.topics[1].bytes, second);
    let mut data = vec![0u8; 64];
    data[31] = 0x41;
    data[63] = 0x42;
    assert_eq!(log.data, data);
    assert_eq!(log.block_hash, block_hash);
    assert_eq!(log.block_number, block_number);
    assert_eq!(log.transaction_hash, None);
    assert_eq!(log.log_index, Some(U256::from_u64(3)));
    assert_eq!(log.transaction_index, None);
    assert!(!log.removed);
}

#[test]
fn missing_high_half_counts_as_zero() {
    let client = client();
    let event = Event {
        from_address: Felt::from_u64(0xabcdef),
        keys: vec![Felt::from_u64(1), Felt::from_u64(2), Felt::from_u64(3), Felt::from_u64(4)],
        data: vec![],
    };
    let log = event_to_log(&event, &client, None, None, None, None, None).unwrap();
    assert_eq!(log.topics.len(), 2);
    let mut first = [0u8; 32];
    first[15] = 2;
    first[31] = 1;
    assert_eq!(log.topics[0].bytes, first);
    let mut second = [0u8; 32];
    second[31] = 3;
    assert_eq!(log.topics[1].bytes, second);
    let mut address = [0u8; 20];
    address[19] = 4;
    assert_eq!(log.address.bytes, address);
    assert_eq!(log.data, Vec::<u8>::new());
}

#[test]
fn event_with_only_the_address_key_has_no_topics() {
    let client = client();
    let event =
        Event { from_address: Felt::from_u64(0xabcdef), keys: vec![Felt::from_u64(9)], data: vec![] };
    let log = event_to_log(&event, &client, None, None, None, None, None).unwrap();
    assert_eq!(log.topics.len(), 0);
    assert_eq!(log.address.bytes[19], 9);
}

#[test]
fn event_of_another_contract_is_no_bridge_event() {
    let client = client();
    let event = Event {
        from_address: Felt::from_u64(0xabcdee),
        keys: vec![Felt::from_u64(1)],
        data: vec![],
    };
    assert_eq!(
        event_to_log(&event, &client, None, None, None, None, None),
        Err(EthApiError::NotBridgeEvent(Felt::from_u64(0xabcdee)))
    );
}

#[test]
fn event_without_keys_is_malformed() {
    let client = client();
    let event = Event { from_address: Felt::from_u64(0xabcdef), keys: vec![], data: vec![] };
    assert_eq!(
        event_to_log(&event, &client, None, None, None, None, None),
        Err(EthApiError::MalformedEvent)
    );
}

#[test]
fn event_with_a_topic_too_wide_is_malformed() {
    let client = client();
    let event = Event {
        from_address: Felt::from_u64(0xabcdef),
        keys: vec![Felt::from_u64(1), felt_with(15, 1), Felt::from_u64(4)],
        data: vec![],
    };
    assert_eq!(
        event_to_log(&event, &client, None, None, None, None, None),
        Err(EthApiError::MalformedEvent)
    );
}

#[test]
fn the_emitter_is_checked_before_the_keys() {
    let client = client();
    let event = Event { from_address: Felt::from_u64(1), keys: vec![], data: vec![] };
    assert_eq!(
        event_to_log(&event, &client, None, None, None, None, None),
        Err(EthApiError::NotBridgeEvent(Felt::from_u64(1)))
    );
}

#[test]
fn topics_agree_with_arithmetic_in_the_field() {
    // below 2^251 the field's own arithmetic gives the same topic
    let low = starknet::core::types::FieldElement::from(0x1234_5678_9abc_def0u64);
    let high = starknet::core::types::FieldElement::from(0x0fed_cba9u64);
    let shift = starknet::core::types::FieldElement::from_hex_be("0x100000000000000000000000000000000").unwrap();
    let expected = (low + high * shift).to_bytes_be();
    let topic = reconstruct_topic(
        &Felt::from_bytes_be(low.to_bytes_be()).unwrap(),
        &Felt::from_bytes_be(high.to_bytes_be()).unwrap(),
    )
    .unwrap();
    assert_eq!(topic.bytes, expected);
}
