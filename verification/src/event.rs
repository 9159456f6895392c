//! Logs rebuilt from the events of the native ledger.

use crate::big_endian::{be_fit32, be_value, lemma_be_value_bound};
use crate::bigint::{big_add, big_mul, big_pow};
use crate::client::KakarotClient;
use crate::errors::EthApiError;
use crate::felt::{concat_bytes, felts_to_bytes, Felt};
use crate::primitives::{Address, H256, U256};
use vstd::arithmetic::power2::*;
use vstd::prelude::*;

verus! {

/// An event as the native ledger reports it.
#[derive(Clone, Debug, PartialEq, Eq)]
pub struct Event {
    /// The contract that emitted the event.
    pub from_address: Felt,
    /// The keys: the halves of each topic, low half first, then the address of the Ethereum
    /// contract that logged.
    pub keys: Vec<Felt>,
    /// The payload.
    pub data: Vec<Felt>,
}

/// A log in its Ethereum shape.
#[derive(Clone, Debug, PartialEq, Eq)]
pub struct Log {
    pub address: Address,
    pub topics: Vec<H256>,
    pub data: Vec<u8>,
    pub block_hash: Option<H256>,
    pub block_number: Option<U256>,
    pub transaction_hash: Option<H256>,
    pub log_index: Option<U256>,
    pub transaction_index: Option<U256>,
    pub removed: bool,
}

/// The topic whose low 128 bits are `low` and whose high 128 bits are `high`.
pub open spec fn topic_value(low: nat, high: nat) -> nat {
    low + high * pow2(128)
}

/// The number of topics that `n` keys hold: two keys for each, and one for a last topic whose
/// high half is missing.
pub open spec fn topic_count(n: nat) -> nat {
    (n + 1) / 2
}

/// The topic at place `j` among the topic keys. A missing high half counts as zero.
pub open spec fn topic_at(keys: Seq<Felt>, j: int) -> nat {
    topic_value(
        keys[2 * j].value(),
        if 2 * j + 1 < keys.len() {
            keys[2 * j + 1].value()
        } else {
            0
        },
    )
}

/// Whether every topic among the topic keys fits in 32 bytes.
pub open spec fn topics_fit(keys: Seq<Felt>) -> bool {
    forall|j: int| 0 <= j < topic_count(keys.len()) ==> topic_at(keys, j) < pow2(256)
}

/// The topic whose halves are `low` and `high`, as 32 big-endian bytes, where it fits in them.
pub fn reconstruct_topic(low: &Felt, high: &Felt) -> (r: Option<H256>)
    ensures
        r is Some <==> topic_value(low.value(), high.value()) < pow2(256),
        r is Some ==> be_value(r.unwrap()@) == topic_value(low.value(), high.value()),
{
    let low_bytes = low.to_bytes_be();
    let high_bytes = high.to_bytes_be();
    let shift = big_pow(2, 128);
    let shifted = big_mul(shift.as_slice(), high_bytes.as_slice());
    let sum = big_add(low_bytes.as_slice(), shifted.as_slice());
    proof {
        lemma_pow2(128);
        assert(pow2(128) * high.value() == high.value() * pow2(128)) by (nonlinear_arith);
    }
    match be_fit32(&sum) {
        Some(bytes) => Some(H256 { bytes }),
        None => None,
    }
}

/// The low 128 bits of a topic.
pub open spec fn low_half(topic: nat) -> nat {
    topic % pow2(128)
}

/// The high 128 bits of a topic.
pub open spec fn high_half(topic: nat) -> nat {
    topic / pow2(128)
}

/// Rebuilding a topic undoes its split in two halves: a topic of 256 bits is the topic of its
/// halves, which are 128 bits wide each, and two halves of 128 bits give a topic of 256 bits of
/// which they are the halves.
pub proof fn lemma_topic_inverts_split(low: nat, high: nat, topic: nat)
    requires
        low < pow2(128),
        high < pow2(128),
        topic < pow2(256),
    ensures
        topic_value(low, high) < pow2(256),
        low_half(topic_value(low, high)) == low,
        high_half(topic_value(low, high)) == high,
        low_half(topic) < pow2(128),
        high_half(topic) < pow2(128),
        topic_value(low_half(topic), high_half(topic)) == topic,
{
    let p = pow2(128);
    lemma_pow2_pos(128);
    lemma_pow2_adds(128, 128);
    assert(low + high * p < p * p) by (nonlinear_arith)
        requires
            low < p,
            high < p,
    ;
    vstd::arithmetic::div_mod::lemma_fundamental_div_mod_converse(
        (low + high * p) as int,
        p as int,
        high as int,
        low as int,
    );
    vstd::arithmetic::div_mod::lemma_fundamental_div_mod(topic as int, p as int);
    vstd::arithmetic::div_mod::lemma_mod_bound(topic as int, p as int);
    let q = topic / p;
    assert(q < p) by (nonlinear_arith)
        requires
            topic < p * p,
            topic == p * q + topic % p,
            topic % p >= 0,
            p > 0,
            q >= 0,
    ;
    assert(p * q == q * p) by (nonlinear_arith);
}

/// Topic keys that are halves of 128 bits each give topics that fit in 32 bytes: an event of
/// the interpreter whose keys are such halves, followed by the address, stands for a log.
pub proof fn lemma_halves_fit(keys: Seq<Felt>)
    requires
        forall|i: int| 0 <= i < keys.len() ==> (#[trigger] keys[i]).value() < pow2(128),
    ensures
        topics_fit(keys),
{
    assert forall|j: int| 0 <= j < topic_count(keys.len()) implies topic_at(keys, j) < pow2(
        256,
    ) by {
        let low = keys[2 * j].value();
        let high = if 2 * j + 1 < keys.len() {
            keys[2 * j + 1].value()
        } else {
            0
        };
        lemma_pow2_pos(256);
        lemma_topic_inverts_split(low, high, 0);
    }
}

/// Whether an event stands for a log: the interpreter emitted it, it has the key that names
/// the Ethereum contract, and each of its topics fits in 32 bytes.
pub open spec fn has_log(event: Event, kakarot_address: Felt) -> bool {
    &&& event.from_address == kakarot_address
    &&& event.keys@.len() > 0
    &&& topics_fit(event.keys@.drop_last())
}

/// Whether `log` says what `event` says. The last key is the address of the Ethereum contract
/// that logged, in its low 20 bytes. The keys in front of it are the halves of the topics, low
/// half first. The payload is the 32 bytes of each data element, one after the other.
pub open spec fn is_log_of(log: Log, event: Event) -> bool {
    let keys = event.keys@;
    &&& log.address@ == keys.last()@.subrange(12, 32)
    &&& log.topics@.len() == topic_count((keys.len() - 1) as nat)
    &&& forall|j: int|
        0 <= j < log.topics@.len() ==> be_value(#[trigger] log.topics@[j]@) == topic_at(
            keys.drop_last(),
            j,
        )
    &&& log.data@ == concat_bytes(event.data@)
    &&& !log.removed
}

/// The log that an event stands for. The positions in block and transaction are the caller's.
///
/// An event that the interpreter did not emit is no log of the bridge. One without keys, or
/// with a topic that does not fit in 32 bytes, is malformed.
pub fn event_to_log(
    event: &Event,
    client: &KakarotClient,
    block_hash: Option<H256>,
    block_number: Option<U256>,
    transaction_hash: Option<H256>,
    log_index: Option<U256>,
    transaction_index: Option<U256>,
) -> (r: Result<Log, EthApiError>)
    ensures
        r is Ok <==> has_log(*event, client.kakarot_address()),
        event.from_address != client.kakarot_address() ==> r == Err::<Log, EthApiError>(
            EthApiError::NotBridgeEvent(event.from_address),
        ),
        event.from_address == client.kakarot_address() && !has_log(
            *event,
            client.kakarot_address(),
        ) ==> r == Err::<Log, EthApiError>(EthApiError::MalformedEvent),
        r matches Ok(log) ==> {
            &&& is_log_of(log, *event)
            &&& log.block_hash == block_hash
            &&& log.block_number == block_number
            &&& log.transaction_hash == transaction_hash
            &&& log.log_index == log_index
            &&& log.transaction_index == transaction_index
        },
{
    let kakarot_address = client.kakarot_address();
    if !event.from_address.is_equal(&kakarot_address) {
        return Err(EthApiError::NotBridgeEvent(event.from_address));
    }
    let total = event.keys.len();
    if total == 0 {
        return Err(EthApiError::MalformedEvent);
    }
    let count = total - 1;
    let address = event.keys[count].to_address();
    let ghost topic_keys = event.keys@.drop_last();
    let mut topics: Vec<H256> = Vec::new();
    let mut i: usize = 0;
    while i < count
        invariant
            event.from_address == client.kakarot_address(),
            count + 1 == event.keys@.len(),
            count < usize::MAX,
            topic_keys == event.keys@.drop_last(),
            i == 2 * topics@.len(),
            i <= count + 1,
            forall|j: int|
                0 <= j < topics@.len() ==> be_value(#[trigger] topics@[j]@) == topic_at(
                    topic_keys,
                    j,
                ),
        decreases count + 1 - i,
    {
        let ghost j = topics@.len() as int;
        let topic = if i + 1 < count {
            reconstruct_topic(&event.keys[i], &event.keys[i + 1])
        } else {
            reconstruct_topic(&event.keys[i], &Felt::zero())
        };
        proof {
            assert(topic_keys[2 * j] == event.keys@[i as int]);
            if i + 1 < count {
                assert(topic_keys[2 * j + 1] == event.keys@[i + 1]);
            }
        }
        match topic {
            Some(t) => {
                topics.push(t);
            },
            None => {
                assert(!(topic_at(topic_keys, j) < pow2(256)));
                assert(0 <= j < topic_count(topic_keys.len()));
                return Err(EthApiError::MalformedEvent);
            },
        }
        i += 2;
    }
    let data = felts_to_bytes(&event.data);
    proof {
        assert(topics@.len() == topic_count(count as nat));
        assert(topics_fit(topic_keys)) by {
            assert forall|j: int| 0 <= j < topic_count(topic_keys.len()) implies topic_at(
                topic_keys,
                j,
            ) < pow2(256) by {
                lemma_be_value_bound(topics@[j]@);
            }
        }
    }
    Ok(
        Log {
            address,
            topics,
            data,
            block_hash,
            block_number,
            transaction_hash,
            log_index,
            transaction_index,
            removed: false,
        },
    )
}

/// An event of the native ledger that is to be read as a log.
pub struct StarknetEvent(Event);

impl StarknetEvent {
    /// The event that is wrapped.
    pub closed spec fn event(&self) -> Event {
        self.0
    }

    pub fn new(sn_event: Event) -> (r: Self)
        ensures
            r.event() == sn_event,
    {
        Self(sn_event)
    }

    /// The log that the event stands for, as `event_to_log` gives it.
    pub fn to_eth_log(
        &self,
        client: &KakarotClient,
        block_hash: Option<H256>,
        block_number: Option<U256>,
        transaction_hash: Option<H256>,
        log_index: Option<U256>,
        transaction_index: Option<U256>,
    ) -> (r: Result<Log, EthApiError>)
        ensures
            r is Ok <==> has_log(self.event(), client.kakarot_address()),
            self.event().from_address != client.kakarot_address() ==> r == Err::<Log, EthApiError>(
                EthApiError::NotBridgeEvent(self.event().from_address),
            ),
            self.event().from_address == client.kakarot_address() && !has_log(
                self.event(),
                client.kakarot_address(),
            ) ==> r == Err::<Log, EthApiError>(EthApiError::MalformedEvent),
            r matches Ok(log) ==> {
                &&& is_log_of(log, self.event())
                &&& log.block_hash == block_hash
                &&& log.block_number == block_number
                &&& log.transaction_hash == transaction_hash
                &&& log.log_index == log_index
                &&& log.transaction_index == transaction_index
            },
    {
        event_to_log(
            &self.0,
            client,
            block_hash,
            block_number,
            transaction_hash,
            log_index,
            transaction_index,
        )
    }
}

} // verus!
