//! Integers, flow identifiers and flow bodies on the wire.

use runen_net_quic::delivery::DeliveryMode;
use runen_net_quic::varint::{
    announced_width, decode_varint, encode_varint, VarIntDecodeError, VarIntEncodeError,
    MAX_VARINT,
};
use runen_net_quic::wire::{
    opposite_side, ApplicationErrorCode, ControlBodyError, FlowAccept, FlowId, FlowIdCursor,
    FlowIdCursorError, FlowIdError, FlowReject, FlowRejectReason, FlowTerminate,
    FlowTerminateReason, OpenFlow, WireSide, MAX_FLOW_SEQUENCE,
};

#[test]
fn integers_take_their_shortest_form() {
    for (value, bytes) in [
        (0u64, vec![0x00]),
        (63, vec![0x3f]),
        (64, vec![0x40, 0x40]),
        (15_293, vec![0x7b, 0xbd]),
        (16_383, vec![0x7f, 0xff]),
        (16_384, vec![0x80, 0x00, 0x40, 0x00]),
        (494_878_333, vec![0x9d, 0x7f, 0x3e, 0x7d]),
        (1_073_741_823, vec![0xbf, 0xff, 0xff, 0xff]),
        (1_073_741_824, vec![0xc0, 0, 0, 0, 0x40, 0, 0, 0]),
        (
            151_288_809_941_952_652,
            vec![0xc2, 0x19, 0x7c, 0x5e, 0xff, 0x14, 0xe8, 0x8c],
        ),
        (MAX_VARINT, vec![0xff; 8]),
    ] {
        let encoded = encode_varint(value).unwrap();
        assert_eq!(encoded.as_slice(), &bytes[..]);
        assert_eq!(encoded.len(), bytes.len());
        assert_eq!(announced_width(bytes[0]), bytes.len());
        let mut stream = bytes.clone();
        stream.extend_from_slice(&[1, 2, 3]);
        assert_eq!(decode_varint(&stream), Ok((value, bytes.len())));
    }
    assert!(matches!(
        encode_varint(MAX_VARINT + 1),
        Err(VarIntEncodeError::OutOfRange(value)) if value == MAX_VARINT + 1
    ));
}

#[test]
fn longer_forms_and_missing_bytes_are_refused() {
    for bytes in [
        vec![0x40, 0x3f],
        vec![0x80, 0, 0x3f, 0xff],
        vec![0xc0, 0, 0, 0, 0x3f, 0xff, 0xff, 0xff],
    ] {
        assert_eq!(decode_varint(&bytes), Err(VarIntDecodeError::NonMinimal));
    }
    assert_eq!(
        decode_varint(&[]),
        Err(VarIntDecodeError::Incomplete { needed: 1, available: 0 })
    );
    assert_eq!(
        decode_varint(&[0xc0, 1]),
        Err(VarIntDecodeError::Incomplete { needed: 8, available: 2 })
    );
}

#[test]
fn a_flow_identifier_is_its_side_and_its_sequence() {
    for (side, sequence, value) in [
        (WireSide::Client, 0, 0),
        (WireSide::Server, 0, 1),
        (WireSide::Client, 32, 64),
        (WireSide::Server, 5, 11),
        (WireSide::Server, MAX_FLOW_SEQUENCE, MAX_VARINT),
    ] {
        let id = FlowId::new(side, sequence).unwrap();
        assert_eq!(id.value(), value);
        assert_eq!(FlowId::from_wire(value), Ok(id));
        assert_eq!((id.side(), id.sequence()), (side, sequence));
    }
    assert_eq!(
        FlowId::new(WireSide::Client, MAX_FLOW_SEQUENCE + 1),
        Err(FlowIdError::SequenceOutOfRange(MAX_FLOW_SEQUENCE + 1))
    );
    assert_eq!(
        FlowId::from_wire(MAX_VARINT + 1),
        Err(FlowIdError::ValueOutOfRange(MAX_VARINT + 1))
    );
    assert_eq!(opposite_side(WireSide::Client), WireSide::Server);
    assert_eq!(opposite_side(WireSide::Server), WireSide::Client);
}

#[test]
fn a_cursor_takes_flows_in_order_and_once() {
    let mut local = FlowIdCursor::new(WireSide::Server);
    let mut peer = local;
    for sequence in 0..3 {
        let id = local.allocate().unwrap();
        assert_eq!((id.side(), id.sequence()), (WireSide::Server, sequence));
        assert_eq!(peer.validate_and_consume(id), Ok(()));
        assert_eq!(peer, local);
        assert_eq!(
            peer.validate_and_consume(id),
            Err(FlowIdCursorError::UnexpectedSequence {
                expected: sequence + 1,
                received: sequence,
            })
        );
    }
    assert_eq!(
        peer.validate_and_consume(FlowId::new(WireSide::Client, 3).unwrap()),
        Err(FlowIdCursorError::WrongSide {
            expected: WireSide::Server,
            received: WireSide::Client,
        })
    );
    assert_eq!(peer, local);
}

#[test]
fn flow_bodies_survive_the_wire() {
    let flow_id = FlowId::new(WireSide::Client, 50).unwrap();
    for mode in [
        DeliveryMode::ReliableOrdered,
        DeliveryMode::UnreliableUnordered,
        DeliveryMode::UnreliableSequenced,
    ] {
        for max in [1, 64, MAX_VARINT] {
            let open = OpenFlow::new(flow_id, mode, max).unwrap();
            assert_eq!(OpenFlow::decode(open.encode().as_slice()), Ok(open));
        }
    }
    let accept = FlowAccept { flow_id };
    assert_eq!(accept.encode().as_slice(), &[0x40, 100]);
    assert_eq!(FlowAccept::decode(accept.encode().as_slice()), Ok(accept));
    for reason in [FlowRejectReason::MessageLimit, FlowRejectReason::ResourceLimit] {
        let reject = FlowReject { flow_id, reason };
        assert_eq!(FlowReject::decode(reject.encode().as_slice()), Ok(reject));
    }
    for reason in [
        FlowTerminateReason::Normal,
        FlowTerminateReason::ResourceFailure,
        FlowTerminateReason::ProtocolFailure,
        FlowTerminateReason::ReliableDeliveryFailure,
    ] {
        let terminate = FlowTerminate { flow_id, reason };
        assert_eq!(FlowTerminate::decode(terminate.encode().as_slice()), Ok(terminate));
    }
}

#[test]
fn flow_bodies_that_are_none_are_refused() {
    let flow_id = FlowId::new(WireSide::Client, 0).unwrap();
    assert_eq!(
        OpenFlow::new(flow_id, DeliveryMode::ReliableOrdered, 0),
        Err(ControlBodyError::MessageLimitZero)
    );
    assert_eq!(
        OpenFlow::new(flow_id, DeliveryMode::ReliableOrdered, MAX_VARINT + 1),
        Err(ControlBodyError::MessageLimitOutOfRange(MAX_VARINT + 1))
    );
    assert_eq!(OpenFlow::decode(&[0, 3, 1]), Err(ControlBodyError::UnknownDeliveryMode(3)));
    assert_eq!(OpenFlow::decode(&[0, 0, 0]), Err(ControlBodyError::MessageLimitZero));
    assert_eq!(OpenFlow::decode(&[0, 0, 1, 1]), Err(ControlBodyError::TrailingBytes));
    assert_eq!(
        OpenFlow::decode(&[0, 0]),
        Err(ControlBodyError::VarInt(VarIntDecodeError::Incomplete { needed: 1, available: 0 }))
    );
    assert_eq!(FlowAccept::decode(&[0, 0]), Err(ControlBodyError::TrailingBytes));
    assert_eq!(FlowReject::decode(&[0, 2]), Err(ControlBodyError::UnknownRejectReason(2)));
    assert_eq!(FlowReject::decode(&[0, 1, 0]), Err(ControlBodyError::TrailingBytes));
    assert_eq!(FlowTerminate::decode(&[0, 4]), Err(ControlBodyError::UnknownTerminateReason(4)));
    assert_eq!(
        FlowTerminate::decode(&[0x40, 0, 0]),
        Err(ControlBodyError::VarInt(VarIntDecodeError::NonMinimal))
    );
}

#[test]
fn close_codes_are_distinct() {
    let codes = [
        ApplicationErrorCode::NoError,
        ApplicationErrorCode::ProfileProtocolError,
        ApplicationErrorCode::ControlFrameError,
        ApplicationErrorCode::NegotiationFailed,
        ApplicationErrorCode::FlowProtocolError,
        ApplicationErrorCode::ResourceLimitError,
    ];
    for (number, code) in codes.into_iter().enumerate() {
        assert_eq!(code.wire(), number as u64);
    }
}
