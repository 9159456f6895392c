//! Calls of the interpreter and of account contracts: their arguments and their results.

use crate::address::Resolution;
use crate::big_endian::zeros;
use crate::client::KakarotClient;
use crate::errors::{EthApiError, Operation};
use crate::felt::{concat_bytes, felts_to_bytes, field_prime, Felt};
use crate::primitives::Address;
use crate::provider::{FunctionCall, ProviderCall, StarknetBlockId};
use crate::selectors::Entrypoint;
use vstd::prelude::*;

verus! {

/// What a segment of a call result holds.
#[derive(Clone, Copy, Debug, PartialEq, Eq)]
pub enum SegmentKind {
    /// One element.
    Felt,
    /// A length, then that many elements.
    FeltArray,
}

/// A segment of a call result.
#[derive(Clone, Debug, PartialEq, Eq)]
pub enum FeltOrFeltArray {
    Felt(Felt),
    FeltArray(Vec<Felt>),
}

/// A segment of a call result, as a mathematical value.
pub enum Segment {
    Felt(Felt),
    FeltArray(Seq<Felt>),
}

impl View for FeltOrFeltArray {
    type V = Segment;

    open spec fn view(&self) -> Segment {
        match self {
            FeltOrFeltArray::Felt(felt) => Segment::Felt(*felt),
            FeltOrFeltArray::FeltArray(felts) => Segment::FeltArray(felts@),
        }
    }
}

/// The segments of a list, as mathematical values.
pub open spec fn segments_view(segments: Seq<FeltOrFeltArray>) -> Seq<Segment> {
    Seq::new(segments.len(), |i: int| segments[i]@)
}

/// `done` in front of what is still to come, where that can be read.
pub open spec fn after(done: Seq<Segment>, rest: Option<Seq<Segment>>) -> Option<Seq<Segment>> {
    match rest {
        Some(rest) => Some(done + rest),
        None => None,
    }
}

/// The segments that a call result holds when it is read by a schema, which names the kind of
/// each segment in turn. A single element is one element of the result. An array is an element
/// that gives its length, followed by that many elements. The result must hold what the schema
/// names and nothing more.
pub open spec fn parse_segments(felts: Seq<Felt>, schema: Seq<SegmentKind>) -> Option<
    Seq<Segment>,
>
    decreases schema.len(),
{
    if schema.len() == 0 {
        if felts.len() == 0 {
            Some(Seq::empty())
        } else {
            None
        }
    } else if felts.len() == 0 {
        None
    } else {
        match schema[0] {
            SegmentKind::Felt => after(
                seq![Segment::Felt(felts[0])],
                parse_segments(felts.subrange(1, felts.len() as int), schema.drop_first()),
            ),
            SegmentKind::FeltArray => {
                let count = felts[0].value() as int;
                if count <= felts.len() - 1 {
                    after(
                        seq![Segment::FeltArray(felts.subrange(1, 1 + count))],
                        parse_segments(
                            felts.subrange(1 + count, felts.len() as int),
                            schema.drop_first(),
                        ),
                    )
                } else {
                    None
                }
            },
        }
    }
}

/// The segments of a call result, read by a schema. A result that does not hold what the
/// schema names, or holds more, is a decoding failure of `operation`.
pub fn decode_segmented_result(
    felts: &Vec<Felt>,
    schema: &Vec<SegmentKind>,
    operation: Operation,
) -> (r: Result<Vec<FeltOrFeltArray>, EthApiError>)
    ensures
        r is Ok <==> parse_segments(felts@, schema@) is Some,
        r matches Ok(segments) ==> Some(segments_view(segments@)) == parse_segments(
            felts@,
            schema@,
        ),
        r matches Err(e) ==> e == EthApiError::DecodeError(operation),
{
    let len = felts.len();
    let mut out: Vec<FeltOrFeltArray> = Vec::new();
    let mut pos: usize = 0;
    let mut k: usize = 0;
    proof {
        assert(felts@.subrange(0, len as int) =~= felts@);
        assert(schema@.subrange(0, schema@.len() as int) =~= schema@);
        assert(segments_view(out@) =~= Seq::<Segment>::empty());
        let all = parse_segments(felts@, schema@);
        if all is Some {
            assert(Seq::<Segment>::empty() + all.unwrap() =~= all.unwrap());
        }
    }
    while k < schema.len()
        invariant
            len == felts@.len(),
            pos <= len,
            k <= schema@.len(),
            parse_segments(felts@, schema@) == after(
                segments_view(out@),
                parse_segments(
                    felts@.subrange(pos as int, len as int),
                    schema@.subrange(k as int, schema@.len() as int),
                ),
            ),
        decreases schema@.len() - k,
    {
        let ghost left = felts@.subrange(pos as int, len as int);
        let ghost kinds = schema@.subrange(k as int, schema@.len() as int);
        let ghost done = segments_view(out@);
        proof {
            assert(kinds.drop_first() =~= schema@.subrange(k + 1, schema@.len() as int));
            assert(kinds[0] == schema@[k as int]);
        }
        if pos >= len {
            return Err(EthApiError::DecodeError(operation));
        }
        assert(left[0] == felts@[pos as int]);
        match schema[k] {
            SegmentKind::Felt => {
                out.push(FeltOrFeltArray::Felt(felts[pos]));
                proof {
                    let item = Segment::Felt(felts@[pos as int]);
                    assert(left.subrange(1, left.len() as int) =~= felts@.subrange(
                        pos + 1,
                        len as int,
                    ));
                    assert(segments_view(out@) =~= done.push(item));
                    let rest = parse_segments(
                        felts@.subrange(pos + 1, len as int),
                        schema@.subrange(k + 1, schema@.len() as int),
                    );
                    if rest is Some {
                        assert(done + (seq![item] + rest.unwrap()) =~= done.push(item)
                            + rest.unwrap());
                    }
                }
                pos += 1;
            },
            SegmentKind::FeltArray => {
                let count = match felts[pos].to_usize() {
                    Some(count) => count,
                    None => {
                        return Err(EthApiError::DecodeError(operation));
                    },
                };
                if count > len - pos - 1 {
                    return Err(EthApiError::DecodeError(operation));
                }
                let mut items: Vec<Felt> = Vec::new();
                let mut t: usize = 0;
                while t < count
                    invariant
                        t <= count,
                        pos + 1 + count <= len,
                        len == felts@.len(),
                        items@ == felts@.subrange(pos + 1, pos + 1 + t),
                    decreases count - t,
                {
                    items.push(felts[pos + 1 + t]);
                    assert(felts@.subrange(pos + 1, pos + 1 + t + 1) =~= felts@.subrange(
                        pos + 1,
                        pos + 1 + t,
                    ).push(felts@[pos + 1 + t]));
                    t += 1;
                }
                out.push(FeltOrFeltArray::FeltArray(items));
                proof {
                    let item = Segment::FeltArray(felts@.subrange(pos + 1, pos + 1 + count));
                    assert(left.subrange(1, 1 + count) =~= felts@.subrange(
                        pos + 1,
                        pos + 1 + count,
                    ));
                    assert(left.subrange(1 + count, left.len() as int) =~= felts@.subrange(
                        pos + 1 + count,
                        len as int,
                    ));
                    assert(segments_view(out@) =~= done.push(item));
                    let rest = parse_segments(
                        felts@.subrange(pos + 1 + count, len as int),
                        schema@.subrange(k + 1, schema@.len() as int),
                    );
                    if rest is Some {
                        assert(done + (seq![item] + rest.unwrap()) =~= done.push(item)
                            + rest.unwrap());
                    }
                }
                pos += 1 + count;
            },
        }
        k += 1;
    }
    proof {
        assert(schema@.subrange(k as int, schema@.len() as int).len() == 0);
        if pos == len {
            assert(felts@.subrange(pos as int, len as int).len() == 0);
            assert(segments_view(out@) + Seq::<Segment>::empty() =~= segments_view(out@));
        }
    }
    if pos != len {
        return Err(EthApiError::DecodeError(operation));
    }
    Ok(out)
}

/// The bytes that an array of elements holds, one byte in each element. An element that is no
/// byte, being above 255, is left out, and the bytes behind it move up.
pub open spec fn array_bytes(felts: Seq<Felt>) -> Seq<u8>
    decreases felts.len(),
{
    if felts.len() == 0 {
        Seq::empty()
    } else if felts.last().value() <= 255 {
        array_bytes(felts.drop_last()).push(felts.last().value() as u8)
    } else {
        array_bytes(felts.drop_last())
    }
}

/// What becomes of an element that is no byte where bytes are read from an array of elements.
/// Leaving such an element out shifts the bytes behind it: it hides an answer that does not
/// hold what it should.
#[derive(Clone, Copy, Debug, PartialEq, Eq)]
pub enum Oversized {
    /// The element is left out.
    Dropped,
    /// The array holds no bytes at all.
    Refused,
}

/// Whether every element of an array is a byte.
pub open spec fn all_bytes(felts: Seq<Felt>) -> bool {
    forall|i: int| 0 <= i < felts.len() ==> (#[trigger] felts[i]).value() <= 255
}

/// The bytes that are read from an array of elements: one from each element. Where an element
/// is no byte, `oversized` says whether it is left out or nothing is read at all.
pub open spec fn bytes_read(felts: Seq<Felt>, oversized: Oversized) -> Option<Seq<u8>> {
    if oversized is Dropped || all_bytes(felts) {
        Some(array_bytes(felts))
    } else {
        None
    }
}

/// The bytes that an array of elements holds, one byte in each element. An element that is no
/// byte is left out.
pub fn felt_array_to_bytes(felts: &Vec<Felt>) -> (r: Vec<u8>)
    ensures
        r@ == array_bytes(felts@),
{
    read_byte_array(felts, Oversized::Dropped).unwrap()
}

/// The bytes that are read from an array of elements: one from each element. Where an element
/// is no byte, `oversized` says whether it is left out or nothing is read at all.
pub fn read_byte_array(felts: &Vec<Felt>, oversized: Oversized) -> (r: Option<Vec<u8>>)
    ensures
        r is Some <==> bytes_read(felts@, oversized) is Some,
        r matches Some(bytes) ==> Some(bytes@) == bytes_read(felts@, oversized),
{
    let mut out: Vec<u8> = Vec::new();
    let mut i: usize = 0;
    while i < felts.len()
        invariant
            i <= felts.len(),
            out@ == array_bytes(felts@.subrange(0, i as int)),
            oversized is Refused ==> all_bytes(felts@.subrange(0, i as int)),
        decreases felts.len() - i,
    {
        let ghost front = felts@.subrange(0, i as int);
        let ghost next = felts@.subrange(0, i + 1);
        assert(next.drop_last() =~= front);
        match felts[i].to_u8() {
            Some(byte) => {
                out.push(byte);
                assert forall|j: int| 0 <= j < next.len() && all_bytes(front) implies (
                #[trigger] next[j]).value() <= 255 by {
                    if j < i {
                        assert(next[j] == front[j]);
                    }
                }
            },
            None => {
                match oversized {
                    Oversized::Dropped => {},
                    Oversized::Refused => {
                        assert(!all_bytes(felts@)) by {
                            assert(felts@[i as int].value() > 255);
                        }
                        return None;
                    },
                }
            },
        }
        i += 1;
    }
    assert(felts@.subrange(0, felts.len() as int) =~= felts@);
    Some(out)
}

/// Whether `felts` holds the bytes `bytes`, one in each element and in their order.
pub open spec fn holds_bytes(felts: Seq<Felt>, bytes: Seq<u8>) -> bool {
    &&& felts.len() == bytes.len()
    &&& forall|i: int| 0 <= i < bytes.len() ==> (#[trigger] felts[i]).value() == bytes[i]
}

/// The elements that hold `bytes`, one byte in each.
pub fn bytes_to_felts(bytes: &Vec<u8>) -> (r: Vec<Felt>)
    ensures
        holds_bytes(r@, bytes@),
{
    let mut out: Vec<Felt> = Vec::new();
    let mut i: usize = 0;
    while i < bytes.len()
        invariant
            i <= bytes.len(),
            holds_bytes(out@, bytes@.subrange(0, i as int)),
        decreases bytes.len() - i,
    {
        out.push(Felt::from_u8(bytes[i]));
        i += 1;
    }
    assert(bytes@.subrange(0, bytes.len() as int) =~= bytes@);
    out
}

/// Whether `arguments` is what the interpreter's `eth_call` takes for a call of `address`
/// with `calldata`: the address as an element, the largest element, zero and zero (three
/// places that the interpreter keeps and does not read), the length of the calldata, and the
/// calldata, one byte in each element.
pub open spec fn is_eth_call_arguments(
    arguments: Seq<Felt>,
    address: Seq<u8>,
    calldata: Seq<u8>,
) -> bool {
    &&& arguments.len() == 5 + calldata.len()
    &&& arguments[0]@ == zeros(12) + address
    &&& arguments[1].value() == field_prime() - 1
    &&& arguments[2].value() == 0
    &&& arguments[3].value() == 0
    &&& arguments[4].value() == calldata.len()
    &&& holds_bytes(arguments.subrange(5, arguments.len() as int), calldata)
}

/// The schema of the interpreter's answer to `eth_call`: one array, the bytes that the call
/// returned.
pub open spec fn eth_call_schema() -> Seq<SegmentKind> {
    seq![SegmentKind::FeltArray]
}

/// The segments of the interpreter's answer to `eth_call`.
pub fn decode_eth_call_return(call_result: &Vec<Felt>) -> (r: Result<
    Vec<FeltOrFeltArray>,
    EthApiError,
>)
    ensures
        r is Ok <==> parse_segments(call_result@, eth_call_schema()) is Some,
        r matches Ok(segments) ==> Some(segments_view(segments@)) == parse_segments(
            call_result@,
            eth_call_schema(),
        ),
        r matches Err(e) ==> e == EthApiError::DecodeError(Operation::CallView),
{
    let mut schema: Vec<SegmentKind> = Vec::new();
    schema.push(SegmentKind::FeltArray);
    assert(schema@ =~= eth_call_schema());
    decode_segmented_result(call_result, &schema, Operation::CallView)
}

/// The bytes that a call returned, among the segments of the interpreter's answer: those that
/// are read from the first segment, which must be an array.
pub open spec fn return_data_in(segments: Seq<Segment>, oversized: Oversized) -> Option<Seq<u8>> {
    if segments.len() == 0 {
        None
    } else {
        match segments[0] {
            Segment::FeltArray(felts) => bytes_read(felts, oversized),
            Segment::Felt(_) => None,
        }
    }
}

/// The bytes that a call returned, among the segments of the interpreter's answer. It is a
/// decoding failure if there is no segment, if the first one is no array, or if no bytes are
/// read from it.
pub fn return_data(segments: &Vec<FeltOrFeltArray>, oversized: Oversized) -> (r: Result<
    Vec<u8>,
    EthApiError,
>)
    ensures
        r is Ok <==> return_data_in(segments_view(segments@), oversized) is Some,
        r matches Ok(bytes) ==> Some(bytes@) == return_data_in(
            segments_view(segments@),
            oversized,
        ),
        r matches Err(e) ==> e == EthApiError::DecodeError(Operation::CallView),
{
    if segments.len() == 0 {
        return Err(EthApiError::DecodeError(Operation::CallView));
    }
    assert(segments_view(segments@)[0] == segments@[0]@);
    match &segments[0] {
        FeltOrFeltArray::FeltArray(felts) => match read_byte_array(felts, oversized) {
            Some(bytes) => Ok(bytes),
            None => Err(EthApiError::DecodeError(Operation::CallView)),
        },
        FeltOrFeltArray::Felt(_) => Err(EthApiError::DecodeError(Operation::CallView)),
    }
}

/// The bytes that the interpreter's answer to `eth_call` carries, where the answer follows its
/// schema and bytes are read from it.
pub open spec fn call_view_result(call_result: Seq<Felt>, oversized: Oversized) -> Option<
    Seq<u8>,
> {
    match parse_segments(call_result, eth_call_schema()) {
        Some(segments) => return_data_in(segments, oversized),
        None => None,
    }
}

impl KakarotClient {
    /// The call that has the interpreter run `calldata` on the contract at `ethereum_address`
    /// without changing anything.
    pub fn call_view_request(
        &self,
        ethereum_address: &Address,
        calldata: &Vec<u8>,
        starknet_block_id: &StarknetBlockId,
    ) -> (r: ProviderCall)
        ensures
            is_eth_call_arguments(r.request.calldata@, ethereum_address@, calldata@),
            r.is_call(
                self.kakarot_address(),
                Entrypoint::EthCall,
                r.request.calldata@,
                *starknet_block_id,
            ),
    {
        let mut arguments: Vec<Felt> = Vec::new();
        arguments.push(Felt::from_address(ethereum_address));
        arguments.push(Felt::max());
        arguments.push(Felt::zero());
        arguments.push(Felt::zero());
        arguments.push(Felt::from_usize(calldata.len()));
        let mut i: usize = 0;
        while i < calldata.len()
            invariant
                i <= calldata.len(),
                arguments@.len() == 5 + i,
                arguments@[0]@ == zeros(12) + ethereum_address@,
                arguments@[1].value() == field_prime() - 1,
                arguments@[2].value() == 0,
                arguments@[3].value() == 0,
                arguments@[4].value() == calldata@.len(),
                forall|j: int| 0 <= j < i ==> (#[trigger] arguments@[5 + j]).value() == calldata@[j],
            decreases calldata.len() - i,
        {
            arguments.push(Felt::from_u8(calldata[i]));
            i += 1;
        }
        proof {
            let tail = arguments@.subrange(5, arguments@.len() as int);
            assert forall|j: int| 0 <= j < calldata@.len() implies (#[trigger] tail[j]).value()
                == calldata@[j] by {
                assert(tail[j] == arguments@[5 + j]);
            }
        }
        ProviderCall {
            request: FunctionCall {
                contract_address: self.kakarot_address(),
                entry_point_selector: Entrypoint::EthCall.selector(),
                calldata: arguments,
            },
            block_id: *starknet_block_id,
        }
    }

    /// The bytes that a call returned, from the outcome of asking the interpreter. A failure of
    /// the call is passed on; an answer that does not follow the schema, or from which no bytes
    /// are read, is a decoding failure. The client's setting says what becomes of an element
    /// that is no byte.
    pub fn call_view(&self, outcome: Result<Vec<Felt>, EthApiError>) -> (r: Result<
        Vec<u8>,
        EthApiError,
    >)
        ensures
            outcome matches Err(e) ==> r == Err::<Vec<u8>, EthApiError>(e),
            outcome matches Ok(felts) ==> {
                &&& r is Ok <==> call_view_result(felts@, self.oversized()) is Some
                &&& r matches Ok(bytes) ==> Some(bytes@) == call_view_result(
                    felts@,
                    self.oversized(),
                )
                &&& r matches Err(e) ==> e == EthApiError::DecodeError(Operation::CallView)
            },
    {
        match outcome {
            Ok(felts) => {
                match decode_eth_call_return(&felts) {
                    Ok(segments) => return_data(&segments, self.oversized()),
                    Err(e) => Err(e),
                }
            },
            Err(e) => Err(e),
        }
    }

    /// The call that asks the account contract for its code, once the interpreter has answered
    /// which native account stands for the Ethereum address. The code is read at the block at
    /// which the account was resolved.
    pub fn get_code_request(
        &self,
        resolution: &Resolution,
        resolved: Result<Vec<Felt>, EthApiError>,
    ) -> (r: Result<ProviderCall, EthApiError>)
        ensures
            resolved matches Err(e) ==> r == Err::<ProviderCall, EthApiError>(e),
            resolved matches Ok(felts) && felts@.len() == 0 ==> r == Err::<
                ProviderCall,
                EthApiError,
            >(EthApiError::TranslationError(Operation::ComputeStarknetAddress)),
            resolved matches Ok(felts) ==> (felts@.len() > 0 ==> (r matches Ok(call)
                && call.is_call(
                felts@[0],
                Entrypoint::Bytecode,
                Seq::empty(),
                resolution.block_id(),
            ))),
    {
        match self.compute_starknet_address(resolved) {
            Ok(starknet_address) => Ok(
                ProviderCall {
                    request: FunctionCall {
                        contract_address: starknet_address,
                        entry_point_selector: Entrypoint::Bytecode.selector(),
                        calldata: Vec::new(),
                    },
                    block_id: resolution.block_id(),
                },
            ),
            Err(e) => Err(e),
        }
    }

    /// The code of an account, from the outcome of asking its contract: the 32 bytes of each
    /// element of the answer, one element after the other. A failure of the call is passed on.
    pub fn get_code(&self, outcome: Result<Vec<Felt>, EthApiError>) -> (r: Result<
        Vec<u8>,
        EthApiError,
    >)
        ensures
            outcome matches Err(e) ==> r == Err::<Vec<u8>, EthApiError>(e),
            outcome matches Ok(felts) ==> (r matches Ok(code) && code@ == concat_bytes(felts@)),
    {
        match outcome {
            Ok(felts) => Ok(felts_to_bytes(&felts)),
            Err(e) => Err(e),
        }
    }
}

/// Whether `stream` is `bytes` written as an array: their number, then one element for each.
pub open spec fn is_byte_array(stream: Seq<Felt>, bytes: Seq<u8>) -> bool {
    &&& stream.len() == 1 + bytes.len()
    &&& stream[0].value() == bytes.len()
    &&& holds_bytes(stream.subrange(1, stream.len() as int), bytes)
}

/// Elements that hold bytes give those bytes back.
pub proof fn lemma_array_bytes_of_bytes(felts: Seq<Felt>, bytes: Seq<u8>)
    requires
        holds_bytes(felts, bytes),
    ensures
        array_bytes(felts) == bytes,
    decreases felts.len(),
{
    if felts.len() > 0 {
        assert(felts.last() == felts[felts.len() - 1]);
        assert forall|i: int| 0 <= i < bytes.drop_last().len() implies (
        #[trigger] felts.drop_last()[i]).value() == bytes.drop_last()[i] by {
            assert(felts.drop_last()[i] == felts[i]);
        }
        lemma_array_bytes_of_bytes(felts.drop_last(), bytes.drop_last());
        assert(bytes =~= bytes.drop_last().push(bytes.last()));
    } else {
        assert(bytes =~= Seq::<u8>::empty());
    }
}

/// Bytes written as an array are read back unchanged, whatever becomes of elements that are
/// no bytes: the answer to `eth_call` that is made of the number of the bytes and of one
/// element for each follows the schema, and the bytes that it carries are those that were
/// written.
pub proof fn lemma_byte_array_round_trip(stream: Seq<Felt>, bytes: Seq<u8>, oversized: Oversized)
    requires
        is_byte_array(stream, bytes),
    ensures
        call_view_result(stream, oversized) == Some(bytes),
{
    let schema = eth_call_schema();
    let items = stream.subrange(1, 1 + bytes.len() as int);
    assert(items =~= stream.subrange(1, stream.len() as int));
    assert(stream.subrange(1 + bytes.len() as int, stream.len() as int) =~= Seq::<Felt>::empty());
    assert(schema.drop_first() =~= Seq::<SegmentKind>::empty());
    assert(parse_segments(Seq::<Felt>::empty(), Seq::<SegmentKind>::empty()) == Some(
        Seq::<Segment>::empty(),
    ));
    let segments = seq![Segment::FeltArray(items)];
    assert(segments + Seq::<Segment>::empty() =~= segments);
    assert(parse_segments(stream, schema) == Some(segments));
    lemma_array_bytes_of_bytes(items, bytes);
    assert(all_bytes(items));
}

} // verus!
