use modbus::ModbusError;
use modbus::context::Modbus;
use modbus::frame::{decode_rtu, decode_tcp, encode_rtu, encode_tcp};
use modbus::mapping::ModbusMapping;
use modbus::pdu::Response;
use modbus::transaction::{Transaction, TxAction, TxStatus};

fn start_frame(tx: &mut Transaction) -> Vec<u8> {
    match tx.start() {
        TxAction::Send(frame) => frame,
        _ => panic!("start must hand out a frame to send"),
    }
}

#[test]
fn rtu_request_has_known_bytes_and_crc() {
    let mut ctx = Modbus::new_rtu("/dev/ttyS0", 9600, 'N', 8, 1).unwrap();
    ctx.set_slave(1).unwrap();
    let mut tx = ctx.read_registers(0, 1).unwrap();
    let frame = start_frame(&mut tx);
    assert_eq!(frame, vec![0x01, 0x03, 0x00, 0x00, 0x00, 0x01, 0x84, 0x0A]);
}

#[test]
fn rtu_bit_flip_fails_checksum() {
    let good = vec![0x01, 0x03, 0x00, 0x00, 0x00, 0x01, 0x84, 0x0A];
    assert!(decode_rtu(&good).is_ok());
    for i in 0..good.len() {
        let mut bad = good.clone();
        bad[i] ^= 0x01;
        assert_eq!(decode_rtu(&bad), Err(ModbusError::ChecksumMismatch));
    }
}

#[test]
fn rtu_too_short_frame_is_invalid() {
    assert_eq!(decode_rtu(&[0x01, 0x03, 0x84]), Err(ModbusError::InvalidHeader));
}

#[test]
fn tcp_decoded_frame_reencodes_to_same_bytes() {
    let original = vec![
        0x00, 0x2A, 0x00, 0x00, 0x00, 0x06, 0x11, 0x03, 0x00, 0x6B, 0x00, 0x03,
    ];
    let (tid, unit, pdu) = decode_tcp(&original).unwrap();
    assert_eq!(tid, 42);
    assert_eq!(unit, 0x11);
    assert_eq!(encode_tcp(tid, unit, &pdu), original);
}

#[test]
fn tcp_bad_protocol_or_length_is_invalid() {
    let bad_proto = vec![
        0x00, 0x2A, 0x00, 0x01, 0x00, 0x06, 0x11, 0x03, 0x00, 0x6B, 0x00, 0x03,
    ];
    assert_eq!(decode_tcp(&bad_proto), Err(ModbusError::InvalidHeader));
    let bad_len = vec![
        0x00, 0x2A, 0x00, 0x00, 0x00, 0x07, 0x11, 0x03, 0x00, 0x6B, 0x00, 0x03,
    ];
    assert_eq!(decode_tcp(&bad_len), Err(ModbusError::InvalidHeader));
}

#[test]
fn quantity_ceiling_fails_fast() {
    let mut ctx = Modbus::new_rtu("/dev/ttyS0", 9600, 'N', 8, 1).unwrap();
    ctx.set_slave(1).unwrap();
    assert!(matches!(
        ctx.read_registers(0, 126),
        Err(ModbusError::InvalidQuantity)
    ));
    assert!(ctx.read_registers(0, 125).is_ok());
    assert!(matches!(
        ctx.read_registers(0, 0),
        Err(ModbusError::InvalidQuantity)
    ));
    assert!(matches!(
        ctx.read_bits(0, 2001),
        Err(ModbusError::InvalidQuantity)
    ));
    assert!(ctx.read_bits(0, 2000).is_ok());
}

#[test]
fn address_overflow_fails_fast() {
    let mut ctx = Modbus::new_rtu("/dev/ttyS0", 9600, 'N', 8, 1).unwrap();
    ctx.set_slave(1).unwrap();
    assert!(matches!(
        ctx.read_registers(65535, 2),
        Err(ModbusError::InvalidAddress)
    ));
    assert!(ctx.read_registers(65535, 1).is_ok());
}

#[test]
fn mapping_write_bits_at_exact_size_succeeds() {
    let mut mapping = ModbusMapping::new(8, 0, 0, 0).unwrap();
    let values = [true, false, true, true, false, false, true, false];
    assert_eq!(mapping.write_bits(0, &values), Ok(()));
    assert_eq!(mapping.read_bits(0, 8).unwrap(), values.to_vec());
}

#[test]
fn mapping_write_bits_past_size_fails_and_leaves_contents() {
    let mut mapping = ModbusMapping::new(8, 0, 0, 0).unwrap();
    let values = [true, false, true, true, false, false, true, false];
    assert_eq!(mapping.write_bits(0, &values), Ok(()));
    let too_many = [true; 9];
    assert_eq!(mapping.write_bits(0, &too_many), Err(ModbusError::OutOfRange));
    assert_eq!(mapping.read_bits(0, 8).unwrap(), values.to_vec());
}

#[test]
fn mapping_register_bounds() {
    let mut mapping = ModbusMapping::new(0, 0, 4, 0).unwrap();
    assert_eq!(mapping.write_registers(0, &[1, 2, 3, 4]), Ok(()));
    assert_eq!(mapping.read_registers(0, 4).unwrap(), vec![1, 2, 3, 4]);
    assert_eq!(
        mapping.write_registers(2, &[9, 9, 9]),
        Err(ModbusError::OutOfRange)
    );
    assert_eq!(mapping.read_registers(0, 4).unwrap(), vec![1, 2, 3, 4]);
    assert_eq!(mapping.read_registers(3, 2), Err(ModbusError::OutOfRange));
}

#[test]
fn mapping_rejects_negative_sizes() {
    assert!(matches!(
        ModbusMapping::new(-1, 0, 0, 0),
        Err(ModbusError::InvalidConfiguration)
    ));
}

#[test]
fn mapping_free_empties_all_spaces() {
    let mut mapping = ModbusMapping::new(4, 4, 4, 4).unwrap();
    mapping.free();
    assert_eq!(mapping.nb_bits(), 0);
    assert_eq!(mapping.nb_input_bits(), 0);
    assert_eq!(mapping.nb_registers(), 0);
    assert_eq!(mapping.nb_input_registers(), 0);
}

#[test]
fn transaction_times_out_after_retry_budget() {
    let mut ctx = Modbus::new_rtu("/dev/ttyS0", 9600, 'N', 8, 1).unwrap();
    ctx.set_slave(1).unwrap();
    ctx.set_max_retries(2);
    let mut tx = ctx.read_registers(0, 4).unwrap();
    let frame = start_frame(&mut tx);
    assert_eq!(tx.sends_made(), 1);
    // first timeout: re-send the identical frame
    match tx.on_timeout() {
        TxAction::Send(again) => assert_eq!(again, frame),
        _ => panic!("a timeout within the budget must re-send"),
    }
    assert_eq!(tx.sends_made(), 2);
    // second timeout: one more re-send
    assert!(matches!(tx.on_timeout(), TxAction::Send(_)));
    assert_eq!(tx.sends_made(), 3);
    // budget exhausted: exactly max_retries + 1 sends, then NoResponse
    assert!(matches!(tx.on_timeout(), TxAction::Finished));
    assert_eq!(tx.sends_made(), 3);
    assert_eq!(tx.status(), TxStatus::Done);
    assert_eq!(tx.into_result(), Err(ModbusError::NoResponse));
}

#[test]
fn mismatched_response_is_discarded_and_wait_goes_on() {
    let mut ctx = Modbus::new_rtu("/dev/ttyS0", 9600, 'N', 8, 1).unwrap();
    ctx.set_slave(5).unwrap();
    let mut tx = ctx.read_registers(0, 1).unwrap();
    start_frame(&mut tx);
    // a well-formed response from the wrong unit
    let stray = encode_rtu(6, &[0x03, 0x02, 0x00, 0x07]);
    assert!(matches!(tx.on_frame(&stray), TxAction::Wait));
    assert_eq!(tx.status(), TxStatus::AwaitingResponse);
    // a response to a different function code
    let wrong_fc = encode_rtu(5, &[0x04, 0x02, 0x00, 0x07]);
    assert!(matches!(tx.on_frame(&wrong_fc), TxAction::Wait));
    // garbage fails the checksum and is discarded too
    assert!(matches!(tx.on_frame(&[0x05, 0x03, 0x00, 0x00]), TxAction::Wait));
    // the genuine response settles the transaction
    let good = encode_rtu(5, &[0x03, 0x02, 0x00, 0x07]);
    assert!(matches!(tx.on_frame(&good), TxAction::Finished));
    assert_eq!(
        tx.into_result(),
        Ok(Response::Registers { function: 3, values: vec![7] })
    );
}

#[test]
fn slave_answers_out_of_range_read_with_illegal_data_address() {
    let mut mapping = ModbusMapping::new(0, 0, 4, 0).unwrap();
    let mut ctx = Modbus::new_rtu("/dev/ttyS0", 9600, 'N', 8, 1).unwrap();
    ctx.set_slave(1).unwrap();
    let mut tx = ctx.read_registers(10, 5).unwrap();
    let frame = start_frame(&mut tx);
    let reply = modbus::dispatch::slave_handle_rtu(&mut mapping, 1, &frame).unwrap();
    let (unit, pdu) = decode_rtu(&reply).unwrap();
    assert_eq!(unit, 1);
    assert_eq!(pdu, vec![0x83, 0x02]);
    assert!(matches!(tx.on_frame(&reply), TxAction::Finished));
    assert_eq!(tx.into_result(), Err(ModbusError::ModbusException(2)));
}

#[test]
fn slave_answers_unknown_function_with_illegal_function() {
    let mut mapping = ModbusMapping::new(0, 0, 4, 0).unwrap();
    let frame = encode_rtu(1, &[0x2B, 0x00]);
    let reply = modbus::dispatch::slave_handle_rtu(&mut mapping, 1, &frame).unwrap();
    let (_, pdu) = decode_rtu(&reply).unwrap();
    assert_eq!(pdu, vec![0xAB, 0x01]);
}

#[test]
fn slave_answers_malformed_write_with_illegal_data_value() {
    let mut mapping = ModbusMapping::new(4, 0, 0, 0).unwrap();
    // a write-single-coil value other than 0xFF00 or 0x0000
    let frame = encode_rtu(1, &[0x05, 0x00, 0x01, 0x55, 0x00]);
    let reply = modbus::dispatch::slave_handle_rtu(&mut mapping, 1, &frame).unwrap();
    let (_, pdu) = decode_rtu(&reply).unwrap();
    assert_eq!(pdu, vec![0x85, 0x03]);
}

#[test]
fn slave_ignores_other_units_and_bad_checksums() {
    let mut mapping = ModbusMapping::new(0, 0, 4, 0).unwrap();
    let frame = encode_rtu(7, &[0x03, 0x00, 0x00, 0x00, 0x01]);
    assert!(modbus::dispatch::slave_handle_rtu(&mut mapping, 1, &frame).is_none());
    let mut corrupt = encode_rtu(1, &[0x03, 0x00, 0x00, 0x00, 0x01]);
    let last = corrupt.len() - 1;
    corrupt[last] ^= 0xFF;
    assert!(modbus::dispatch::slave_handle_rtu(&mut mapping, 1, &corrupt).is_none());
}

#[test]
fn end_to_end_read_holding_registers() {
    let mut mapping = ModbusMapping::new(0, 0, 4, 0).unwrap();
    mapping.write_registers(0, &[1, 2, 3, 4]).unwrap();
    let mut ctx = Modbus::new_rtu("/dev/ttyS0", 9600, 'N', 8, 1).unwrap();
    ctx.set_slave(17).unwrap();
    let mut tx = ctx.read_registers(0, 4).unwrap();
    let frame = start_frame(&mut tx);
    let reply = modbus::dispatch::slave_handle_rtu(&mut mapping, 17, &frame).unwrap();
    assert!(matches!(tx.on_frame(&reply), TxAction::Finished));
    assert_eq!(
        tx.into_result(),
        Ok(Response::Registers { function: 3, values: vec![1, 2, 3, 4] })
    );
}

#[test]
fn end_to_end_write_and_read_coils() {
    let mut mapping = ModbusMapping::new(16, 0, 0, 0).unwrap();
    let mut ctx = Modbus::new_rtu("/dev/ttyS0", 9600, 'N', 8, 1).unwrap();
    ctx.set_slave(3).unwrap();
    let pattern = [true, false, true, true, false, true, false, false, true, true];
    let mut tx = ctx.write_bits(2, &pattern).unwrap();
    let frame = start_frame(&mut tx);
    let reply = modbus::dispatch::slave_handle_rtu(&mut mapping, 3, &frame).unwrap();
    assert!(matches!(tx.on_frame(&reply), TxAction::Finished));
    assert_eq!(
        tx.into_result(),
        Ok(Response::WriteBitsAck { address: 2, quantity: 10 })
    );
    assert_eq!(mapping.read_bits(2, 10).unwrap(), pattern.to_vec());
    assert_eq!(mapping.read_bits(0, 2).unwrap(), vec![false, false]);
    assert_eq!(mapping.read_bits(12, 4).unwrap(), vec![false; 4]);
    // and read the coils back over the wire
    let mut rtx = ctx.read_bits(2, 10).unwrap();
    let rframe = start_frame(&mut rtx);
    let rreply = modbus::dispatch::slave_handle_rtu(&mut mapping, 3, &rframe).unwrap();
    assert!(matches!(rtx.on_frame(&rreply), TxAction::Finished));
    assert_eq!(
        rtx.into_result(),
        Ok(Response::Bits { function: 1, values: pattern.to_vec() })
    );
}

#[test]
fn end_to_end_over_tcp_echoes_transaction_id() {
    let mut mapping = ModbusMapping::new(0, 0, 8, 0).unwrap();
    let mut ctx = Modbus::new_tcp("127.0.0.1", 1502).unwrap();
    ctx.set_slave(9).unwrap();
    let mut tx = ctx.write_register(5, 1234).unwrap();
    let frame = start_frame(&mut tx);
    let reply = modbus::dispatch::slave_handle_tcp(&mut mapping, 9, &frame).unwrap();
    let (tid, unit, _) = decode_tcp(&reply).unwrap();
    assert_eq!(tid, 0);
    assert_eq!(unit, 9);
    assert!(matches!(tx.on_frame(&reply), TxAction::Finished));
    assert_eq!(
        tx.into_result(),
        Ok(Response::WriteRegisterAck { address: 5, value: 1234 })
    );
    assert_eq!(mapping.read_registers(5, 1).unwrap(), vec![1234]);
    // the next transaction draws the next identifier
    let mut tx2 = ctx.write_register(5, 99).unwrap();
    let frame2 = start_frame(&mut tx2);
    let (tid2, _, _) = decode_tcp(&frame2).unwrap();
    assert_eq!(tid2, 1);
}

#[test]
fn broadcast_write_completes_at_once_and_slave_stays_silent() {
    let mut ctx = Modbus::new_rtu("/dev/ttyS0", 9600, 'N', 8, 1).unwrap();
    ctx.set_slave(0).unwrap();
    let mut tx = ctx.write_register(2, 77).unwrap();
    let frame = start_frame(&mut tx);
    assert_eq!(tx.status(), TxStatus::Done);
    assert_eq!(tx.sends_made(), 1);
    assert_eq!(
        tx.into_result(),
        Ok(Response::WriteRegisterAck { address: 2, value: 77 })
    );
    // the slave applies a broadcast write but answers nothing
    let mut mapping = ModbusMapping::new(0, 0, 4, 0).unwrap();
    assert!(modbus::dispatch::slave_handle_rtu(&mut mapping, 5, &frame).is_none());
    assert_eq!(mapping.read_registers(2, 1).unwrap(), vec![77]);
}

#[test]
fn slave_exception_for_out_of_range_write() {
    let mut mapping = ModbusMapping::new(2, 0, 0, 0).unwrap();
    let mut ctx = Modbus::new_rtu("/dev/ttyS0", 9600, 'N', 8, 1).unwrap();
    ctx.set_slave(1).unwrap();
    let mut tx = ctx.write_bit(5, true).unwrap();
    let frame = start_frame(&mut tx);
    let reply = modbus::dispatch::slave_handle_rtu(&mut mapping, 1, &frame).unwrap();
    assert!(matches!(tx.on_frame(&reply), TxAction::Finished));
    assert_eq!(tx.into_result(), Err(ModbusError::ModbusException(2)));
    assert_eq!(mapping.read_bits(0, 2).unwrap(), vec![false, false]);
}

#[test]
fn write_quantity_ceilings() {
    let mut ctx = Modbus::new_rtu("/dev/ttyS0", 9600, 'N', 8, 1).unwrap();
    ctx.set_slave(1).unwrap();
    assert!(matches!(
        ctx.write_registers(0, &[0; 124]),
        Err(ModbusError::InvalidQuantity)
    ));
    assert!(ctx.write_registers(0, &[0; 123]).is_ok());
    assert!(matches!(
        ctx.write_bits(0, &[false; 1969]),
        Err(ModbusError::InvalidQuantity)
    ));
    assert!(ctx.write_bits(0, &[false; 1968]).is_ok());
    assert!(matches!(
        ctx.write_registers(0, &[]),
        Err(ModbusError::InvalidQuantity)
    ));
}
