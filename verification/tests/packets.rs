use mil_std_1553b::{CommandWord, DataWord, Error, Packet, StatusWord, Word, WordType};

// ----------------------------------------------------------
// Packet

#[test]
fn test_packet_write_success_0() -> Result<(), Error> {
    let offset: usize = 0;
    let input: &[u8] = &[0b11110000, 0b00000000, 0b00110000];
    let expected: &[u8] = &[0b11110000, 0b00000000, 0b00110000];
    let mut buffer = [0; 4];

    // read then write the packet
    let packet = Packet::read(input, offset)?;
    packet.write(&mut buffer, 0)?;

    // compare the output with the input data
    assert_eq!(&buffer[..3], expected);

    Ok(())
}

#[test]
fn test_packet_write_success_1() -> Result<(), Error> {
    let offset: usize = 4;
    let input: &[u8] = &[0b00001111, 0b00000000, 0b00000011];
    let expected: &[u8] = &[0b11110000, 0b00000000, 0b00110000];
    let mut buffer = [0; 4];

    // read then write the packet
    let packet = Packet::read(input, offset)?;
    packet.write(&mut buffer, 0)?;

    // compare the output with the input data
    assert_eq!(&buffer[..3], expected);

    Ok(())
}

#[test]
fn test_packet_write_success_2() -> Result<(), Error> {
    let offset: usize = 6;
    let input: &[u8] = &[0b00000011, 0b11000000, 0b00000000, 0b11000000];
    let expected: &[u8] = &[0b11110000, 0b00000000, 0b00110000];
    let mut buffer = [0; 4];

    // read then write the packet
    let packet = Packet::read(input, offset)?;
    packet.write(&mut buffer, 0)?;

    // compare the output with the input data
    assert_eq!(&buffer[..3], expected);

    Ok(())
}

#[test]
fn test_packet_write_success_3() -> Result<(), Error> {
    let offset: usize = 12;
    let input: &[u8] = &[0b00000000, 0b00001111, 0b00000000, 0b00000011];
    let expected: &[u8] = &[0b11110000, 0b00000000, 0b00110000];
    let mut buffer = [0; 4];

    // read then write the packet
    let packet = Packet::read(input, offset)?;
    packet.write(&mut buffer, 0)?;

    // compare the output with the input data
    assert_eq!(&buffer[..3], expected);

    Ok(())
}


#[test]
fn test_packet_write_fail_0() -> Result<(), Error> {
    let offset: usize = 5;
    let input: &[u8] = &[0b11110000, 0b00000000, 0b00110000];
    let output: &mut [u8] = &mut [0, 0, 0];
    let expected: bool = false;
    // read then write the packet
    let packet = Packet::read(input, 0)?;
    let result = packet.write(output, offset);

    assert_eq!(result.is_ok(), expected);
    Ok(())
}

#[test]
fn test_packet_write_fail_1() -> Result<(), Error> {
    let offset: usize = 0;
    let input: &[u8] = &[0b11110000, 0b00000000, 0b00110000];
    let output: &mut [u8] = &mut [0, 0];
    let expected: bool = false;
    // read then write the packet
    let packet = Packet::read(input, 0)?;
    let result = packet.write(output, offset);

    assert_eq!(result.is_ok(), expected);
    Ok(())
}


#[test]
fn test_packet_read_success_0() -> Result<(), Error> {
    let offset: usize = 0;
    let input: &[u8] = &[0b11110000, 0b00000000, 0b00110000];
    let sync: u8 = 0b00000111;
    let body: [u8; 2] = [0b10000000, 0b00000001];
    let parity: u8 = 0b00000001;
    let packet = Packet::read(input, offset)?;

    assert_eq!(packet.sync, sync);
    assert_eq!(packet.body, body);
    assert_eq!(packet.parity, parity);

    Ok(())
}

#[test]
fn test_packet_read_success_1() -> Result<(), Error> {
    let offset: usize = 4;
    let input: &[u8] = &[0b00001111, 0b00000000, 0b00000011];
    let sync: u8 = 0b00000111;
    let body: [u8; 2] = [0b10000000, 0b00000001];
    let parity: u8 = 0b00000001;
    let packet = Packet::read(input, offset)?;

    assert_eq!(packet.sync, sync);
    assert_eq!(packet.body, body);
    assert_eq!(packet.parity, parity);

    Ok(())
}

#[test]
fn test_packet_read_success_2() -> Result<(), Error> {
    let offset: usize = 6;
    let input: &[u8] = &[0b00000011, 0b11000000, 0b00000000, 0b11000000];
    let sync: u8 = 0b00000111;
    let body: [u8; 2] = [0b10000000, 0b00000001];
    let parity: u8 = 0b00000001;
    let packet = Packet::read(input, offset)?;

    assert_eq!(packet.sync, sync);
    assert_eq!(packet.body, body);
    assert_eq!(packet.parity, parity);

    Ok(())
}

#[test]
fn test_packet_read_success_3() -> Result<(), Error> {
    let offset: usize = 12;
    let input: &[u8] = &[0b00000000, 0b00001111, 0b00000000, 0b00000011];
    let sync: u8 = 0b00000111;
    let body: [u8; 2] = [0b10000000, 0b00000001];
    let parity: u8 = 0b00000001;
    let packet = Packet::read(input, offset)?;

    assert_eq!(packet.sync, sync);
    assert_eq!(packet.body, body);
    assert_eq!(packet.parity, parity);

    Ok(())
}


#[test]
fn test_packet_read_fail_0() -> Result<(), Error> {
    let offset: usize = 13;
    let input: &[u8] = &[0b00000000, 0b00000111, 0b10000000, 0b00000001, 0b10000000];
    let expected: bool = false;
    let result = Packet::read(input, offset);
    assert_eq!(result.is_ok(), expected);

    Ok(())
}

#[test]
fn test_packet_read_fail_1() -> Result<(), Error> {
    let offset: usize = 12;
    let input: &[u8] = &[0b00000000, 0b00000111, 0b10000000];
    let expected: bool = false;
    let result = Packet::read(input, offset);
    assert_eq!(result.is_ok(), expected);

    Ok(())
}

#[test]
fn test_packet_read_fail_2() -> Result<(), Error> {
    let offset: usize = 0;
    let input: &[u8] = &[0b11110000, 0b00110000];
    let expected: bool = false;
    let result = Packet::read(input, offset);
    assert_eq!(result.is_ok(), expected);

    Ok(())
}


#[test]
fn test_packet_check_parity_0() -> Result<(), Error> {
    let sync: u8 = 0b100;
    let body: [u8; 2] = [0b10000000, 0b00000001];
    let parity: u8 = 1;
    let expected: bool = true;
    let packet = Packet::new(sync, body, parity);
    assert_eq!(packet.check_parity(), expected);
    Ok(())
}

#[test]
fn test_packet_check_parity_1() -> Result<(), Error> {
    let sync: u8 = 0b100;
    let body: [u8; 2] = [0b10000100, 0b00000001];
    let parity: u8 = 0;
    let expected: bool = true;
    let packet = Packet::new(sync, body, parity);
    assert_eq!(packet.check_parity(), expected);
    Ok(())
}

#[test]
fn test_packet_check_parity_2() -> Result<(), Error> {
    let sync: u8 = 0b100;
    let body: [u8; 2] = [0b10000100, 0b00001001];
    let parity: u8 = 1;
    let expected: bool = true;
    let packet = Packet::new(sync, body, parity);
    assert_eq!(packet.check_parity(), expected);
    Ok(())
}

#[test]
fn test_packet_check_parity_3() -> Result<(), Error> {
    let sync: u8 = 0b100;
    let body: [u8; 2] = [0b10000100, 0b10001001];
    let parity: u8 = 0;
    let expected: bool = true;
    let packet = Packet::new(sync, body, parity);
    assert_eq!(packet.check_parity(), expected);
    Ok(())
}

#[test]
fn test_packet_check_parity_4() -> Result<(), Error> {
    let sync: u8 = 0b001;
    let body: [u8; 2] = [0b10000000, 0b00000001];
    let parity: u8 = 1;
    let expected: bool = true;
    let packet = Packet::new(sync, body, parity);
    assert_eq!(packet.check_parity(), expected);
    Ok(())
}

#[test]
fn test_packet_check_parity_5() -> Result<(), Error> {
    let sync: u8 = 0b001;
    let body: [u8; 2] = [0b10000100, 0b00000001];
    let parity: u8 = 0;
    let expected: bool = true;
    let packet = Packet::new(sync, body, parity);
    assert_eq!(packet.check_parity(), expected);
    Ok(())
}

#[test]
fn test_packet_check_parity_6() -> Result<(), Error> {
    let sync: u8 = 0b001;
    let body: [u8; 2] = [0b10000100, 0b00001001];
    let parity: u8 = 1;
    let expected: bool = true;
    let packet = Packet::new(sync, body, parity);
    assert_eq!(packet.check_parity(), expected);
    Ok(())
}

#[test]
fn test_packet_check_parity_7() -> Result<(), Error> {
    let sync: u8 = 0b001;
    let body: [u8; 2] = [0b10000100, 0b10001001];
    let parity: u8 = 0;
    let expected: bool = true;
    let packet = Packet::new(sync, body, parity);
    assert_eq!(packet.check_parity(), expected);
    Ok(())
}

#[test]
fn test_packet_check_parity_8() -> Result<(), Error> {
    let sync: u8 = 0b100;
    let body: [u8; 2] = [0b10000000, 0b00000001];
    let parity: u8 = 0;
    let expected: bool = false;
    let packet = Packet::new(sync, body, parity);
    assert_eq!(packet.check_parity(), expected);
    Ok(())
}

#[test]
fn test_packet_check_parity_9() -> Result<(), Error> {
    let sync: u8 = 0b100;
    let body: [u8; 2] = [0b10000100, 0b00000001];
    let parity: u8 = 1;
    let expected: bool = false;
    let packet = Packet::new(sync, body, parity);
    assert_eq!(packet.check_parity(), expected);
    Ok(())
}

#[test]
fn test_packet_check_parity_10() -> Result<(), Error> {
    let sync: u8 = 0b100;
    let body: [u8; 2] = [0b10000100, 0b00001001];
    let parity: u8 = 0;
    let expected: bool = false;
    let packet = Packet::new(sync, body, parity);
    assert_eq!(packet.check_parity(), expected);
    Ok(())
}

#[test]
fn test_packet_check_parity_11() -> Result<(), Error> {
    let sync: u8 = 0b100;
    let body: [u8; 2] = [0b10000100, 0b10001001];
    let parity: u8 = 1;
    let expected: bool = false;
    let packet = Packet::new(sync, body, parity);
    assert_eq!(packet.check_parity(), expected);
    Ok(())
}

#[test]
fn test_packet_check_parity_12() -> Result<(), Error> {
    let sync: u8 = 0b001;
    let body: [u8; 2] = [0b10000000, 0b00000001];
    let parity: u8 = 0;
    let expected: bool = false;
    let packet = Packet::new(sync, body, parity);
    assert_eq!(packet.check_parity(), expected);
    Ok(())
}

#[test]
fn test_packet_check_parity_13() -> Result<(), Error> {
    let sync: u8 = 0b001;
    let body: [u8; 2] = [0b10000100, 0b00000001];
    let parity: u8 = 1;
    let expected: bool = false;
    let packet = Packet::new(sync, body, parity);
    assert_eq!(packet.check_parity(), expected);
    Ok(())
}

#[test]
fn test_packet_check_parity_14() -> Result<(), Error> {
    let sync: u8 = 0b001;
    let body: [u8; 2] = [0b10000100, 0b00001001];
    let parity: u8 = 0;
    let expected: bool = false;
    let packet = Packet::new(sync, body, parity);
    assert_eq!(packet.check_parity(), expected);
    Ok(())
}

#[test]
fn test_packet_check_parity_15() -> Result<(), Error> {
    let sync: u8 = 0b001;
    let body: [u8; 2] = [0b10000100, 0b10001001];
    let parity: u8 = 1;
    let expected: bool = false;
    let packet = Packet::new(sync, body, parity);
    assert_eq!(packet.check_parity(), expected);
    Ok(())
}


#[test]
fn test_packet_check_sync_0() -> Result<(), Error> {
    let sync: u8 = 0b100;
    let body: [u8; 2] = [0b10000000, 0b00000001];
    let parity: u8 = 1;
    let expected: bool = true;
    let packet = Packet::new(sync, body, parity);
    assert_eq!(packet.check_sync(), expected);
    Ok(())
}

#[test]
fn test_packet_check_sync_1() -> Result<(), Error> {
    let sync: u8 = 0b100;
    let body: [u8; 2] = [0b10000000, 0b10000001];
    let parity: u8 = 0;
    let expected: bool = true;
    let packet = Packet::new(sync, body, parity);
    assert_eq!(packet.check_sync(), expected);
    Ok(())
}

#[test]
fn test_packet_check_sync_2() -> Result<(), Error> {
    let sync: u8 = 0b001;
    let body: [u8; 2] = [0b10000000, 0b00000001];
    let parity: u8 = 1;
    let expected: bool = true;
    let packet = Packet::new(sync, body, parity);
    assert_eq!(packet.check_sync(), expected);
    Ok(())
}

#[test]
fn test_packet_check_sync_3() -> Result<(), Error> {
    let sync: u8 = 0b001;
    let body: [u8; 2] = [0b10000000, 0b10000001];
    let parity: u8 = 0;
    let expected: bool = true;
    let packet = Packet::new(sync, body, parity);
    assert_eq!(packet.check_sync(), expected);
    Ok(())
}


#[test]
fn test_packet_is_data_0() -> Result<(), Error> {
    let sync: u8 = 0b001;
    let body: [u8; 2] = [0b10000000, 0b00000001];
    let parity: u8 = 1;
    let expected: bool = true;
    let packet = Packet::new(sync, body, parity);
    assert_eq!(packet.is_data(), expected);
    Ok(())
}

#[test]
fn test_packet_is_data_1() -> Result<(), Error> {
    let sync: u8 = 0b001;
    let body: [u8; 2] = [0b10000000, 0b10000001];
    let parity: u8 = 0;
    let expected: bool = true;
    let packet = Packet::new(sync, body, parity);
    assert_eq!(packet.is_data(), expected);
    Ok(())
}

#[test]
fn test_packet_is_data_2() -> Result<(), Error> {
    let sync: u8 = 0b011;
    let body: [u8; 2] = [0b10000000, 0b00000001];
    let parity: u8 = 1;
    let expected: bool = false;
    let packet = Packet::new(sync, body, parity);
    assert_eq!(packet.is_data(), expected);
    Ok(())
}

#[test]
fn test_packet_is_data_3() -> Result<(), Error> {
    let sync: u8 = 0b011;
    let body: [u8; 2] = [0b10000000, 0b10000001];
    let parity: u8 = 0;
    let expected: bool = false;
    let packet = Packet::new(sync, body, parity);
    assert_eq!(packet.is_data(), expected);
    Ok(())
}

#[test]
fn test_packet_is_data_4() -> Result<(), Error> {
    let sync: u8 = 0b101;
    let body: [u8; 2] = [0b10000000, 0b00000001];
    let parity: u8 = 1;
    let expected: bool = false;
    let packet = Packet::new(sync, body, parity);
    assert_eq!(packet.is_data(), expected);
    Ok(())
}

#[test]
fn test_packet_is_data_5() -> Result<(), Error> {
    let sync: u8 = 0b101;
    let body: [u8; 2] = [0b10000000, 0b10000001];
    let parity: u8 = 0;
    let expected: bool = false;
    let packet = Packet::new(sync, body, parity);
    assert_eq!(packet.is_data(), expected);
    Ok(())
}

#[test]
fn test_packet_is_data_6() -> Result<(), Error> {
    let sync: u8 = 0b110;
    let body: [u8; 2] = [0b10000000, 0b00000001];
    let parity: u8 = 1;
    let expected: bool = false;
    let packet = Packet::new(sync, body, parity);
    assert_eq!(packet.is_data(), expected);
    Ok(())
}

#[test]
fn test_packet_is_data_7() -> Result<(), Error> {
    let sync: u8 = 0b110;
    let body: [u8; 2] = [0b10000000, 0b10000001];
    let parity: u8 = 0;
    let expected: bool = false;
    let packet = Packet::new(sync, body, parity);
    assert_eq!(packet.is_data(), expected);
    Ok(())
}

#[test]
fn test_packet_is_data_8() -> Result<(), Error> {
    let sync: u8 = 0b111;
    let body: [u8; 2] = [0b10000000, 0b00000001];
    let parity: u8 = 1;
    let expected: bool = false;
    let packet = Packet::new(sync, body, parity);
    assert_eq!(packet.is_data(), expected);
    Ok(())
}

#[test]
fn test_packet_is_data_9() -> Result<(), Error> {
    let sync: u8 = 0b111;
    let body: [u8; 2] = [0b10000000, 0b10000001];
    let parity: u8 = 0;
    let expected: bool = false;
    let packet = Packet::new(sync, body, parity);
    assert_eq!(packet.is_data(), expected);
    Ok(())
}

#[test]
fn test_packet_is_data_10() -> Result<(), Error> {
    let sync: u8 = 0b100;
    let body: [u8; 2] = [0b10000000, 0b00000001];
    let parity: u8 = 1;
    let expected: bool = false;
    let packet = Packet::new(sync, body, parity);
    assert_eq!(packet.is_data(), expected);
    Ok(())
}

#[test]
fn test_packet_is_data_11() -> Result<(), Error> {
    let sync: u8 = 0b100;
    let body: [u8; 2] = [0b10000000, 0b10000001];
    let parity: u8 = 0;
    let expected: bool = false;
    let packet = Packet::new(sync, body, parity);
    assert_eq!(packet.is_data(), expected);
    Ok(())
}


#[test]
fn test_packet_is_service_0() -> Result<(), Error> {
    let sync: u8 = 0b001;
    let body: [u8; 2] = [0b10000000, 0b00000001];
    let parity: u8 = 1;
    let expected: bool = false;
    let packet = Packet::new(sync, body, parity);
    assert_eq!(packet.is_service(), expected);
    Ok(())
}

#[test]
fn test_packet_is_service_1() -> Result<(), Error> {
    let sync: u8 = 0b001;
    let body: [u8; 2] = [0b10000000, 0b10000001];
    let parity: u8 = 0;
    let expected: bool = false;
    let packet = Packet::new(sync, body, parity);
    assert_eq!(packet.is_service(), expected);
    Ok(())
}

#[test]
fn test_packet_is_service_2() -> Result<(), Error> {
    let sync: u8 = 0b011;
    let body: [u8; 2] = [0b10000000, 0b00000001];
    let parity: u8 = 1;
    let expected: bool = false;
    let packet = Packet::new(sync, body, parity);
    assert_eq!(packet.is_service(), expected);
    Ok(())
}

#[test]
fn test_packet_is_service_3() -> Result<(), Error> {
    let sync: u8 = 0b011;
    let body: [u8; 2] = [0b10000000, 0b10000001];
    let parity: u8 = 0;
    let expected: bool = false;
    let packet = Packet::new(sync, body, parity);
    assert_eq!(packet.is_service(), expected);
    Ok(())
}

#[test]
fn test_packet_is_service_4() -> Result<(), Error> {
    let sync: u8 = 0b101;
    let body: [u8; 2] = [0b10000000, 0b00000001];
    let parity: u8 = 1;
    let expected: bool = false;
    let packet = Packet::new(sync, body, parity);
    assert_eq!(packet.is_service(), expected);
    Ok(())
}

#[test]
fn test_packet_is_service_5() -> Result<(), Error> {
    let sync: u8 = 0b101;
    let body: [u8; 2] = [0b10000000, 0b10000001];
    let parity: u8 = 0;
    let expected: bool = false;
    let packet = Packet::new(sync, body, parity);
    assert_eq!(packet.is_service(), expected);
    Ok(())
}

#[test]
fn test_packet_is_service_6() -> Result<(), Error> {
    let sync: u8 = 0b110;
    let body: [u8; 2] = [0b10000000, 0b00000001];
    let parity: u8 = 1;
    let expected: bool = false;
    let packet = Packet::new(sync, body, parity);
    assert_eq!(packet.is_service(), expected);
    Ok(())
}

#[test]
fn test_packet_is_service_7() -> Result<(), Error> {
    let sync: u8 = 0b110;
    let body: [u8; 2] = [0b10000000, 0b10000001];
    let parity: u8 = 0;
    let expected: bool = false;
    let packet = Packet::new(sync, body, parity);
    assert_eq!(packet.is_service(), expected);
    Ok(())
}

#[test]
fn test_packet_is_service_8() -> Result<(), Error> {
    let sync: u8 = 0b111;
    let body: [u8; 2] = [0b10000000, 0b00000001];
    let parity: u8 = 1;
    let expected: bool = false;
    let packet = Packet::new(sync, body, parity);
    assert_eq!(packet.is_service(), expected);
    Ok(())
}

#[test]
fn test_packet_is_service_9() -> Result<(), Error> {
    let sync: u8 = 0b111;
    let body: [u8; 2] = [0b10000000, 0b10000001];
    let parity: u8 = 0;
    let expected: bool = false;
    let packet = Packet::new(sync, body, parity);
    assert_eq!(packet.is_service(), expected);
    Ok(())
}

#[test]
fn test_packet_is_service_10() -> Result<(), Error> {
    let sync: u8 = 0b100;
    let body: [u8; 2] = [0b10000000, 0b00000001];
    let parity: u8 = 1;
    let expected: bool = true;
    let packet = Packet::new(sync, body, parity);
    assert_eq!(packet.is_service(), expected);
    Ok(())
}

#[test]
fn test_packet_is_service_11() -> Result<(), Error> {
    let sync: u8 = 0b100;
    let body: [u8; 2] = [0b10000000, 0b10000001];
    let parity: u8 = 0;
    let expected: bool = true;
    let packet = Packet::new(sync, body, parity);
    assert_eq!(packet.is_service(), expected);
    Ok(())
}


#[test]
fn test_packet_is_valid_0() -> Result<(), Error> {
    let sync: u8 = 0b001;
    let body: [u8; 2] = [0b10000000, 0b00000001];
    let parity: u8 = 1;
    let expected: bool = true;
    let packet = Packet::new(sync, body, parity);
    assert_eq!(packet.is_valid(), expected);
    Ok(())
}

#[test]
fn test_packet_is_valid_1() -> Result<(), Error> {
    let sync: u8 = 0b001;
    let body: [u8; 2] = [0b10000000, 0b10000001];
    let parity: u8 = 0;
    let expected: bool = true;
    let packet = Packet::new(sync, body, parity);
    assert_eq!(packet.is_valid(), expected);
    Ok(())
}

#[test]
fn test_packet_is_valid_2() -> Result<(), Error> {
    let sync: u8 = 0b001;
    let body: [u8; 2] = [0b10001000, 0b00000000];
    let parity: u8 = 0;
    let expected: bool = false;
    let packet = Packet::new(sync, body, parity);
    assert_eq!(packet.is_valid(), expected);
    Ok(())
}

#[test]
fn test_packet_is_valid_3() -> Result<(), Error> {
    let sync: u8 = 0b001;
    let body: [u8; 2] = [0b10000011, 0b10000001];
    let parity: u8 = 1;
    let expected: bool = false;
    let packet = Packet::new(sync, body, parity);
    assert_eq!(packet.is_valid(), expected);
    Ok(())
}

#[test]
fn test_packet_is_valid_4() -> Result<(), Error> {
    let sync: u8 = 0b011;
    let body: [u8; 2] = [0b10000000, 0b00000001];
    let parity: u8 = 1;
    let expected: bool = false;
    let packet = Packet::new(sync, body, parity);
    assert_eq!(packet.is_valid(), expected);
    Ok(())
}

#[test]
fn test_packet_is_valid_5() -> Result<(), Error> {
    let sync: u8 = 0b011;
    let body: [u8; 2] = [0b10000000, 0b10000001];
    let parity: u8 = 0;
    let expected: bool = false;
    let packet = Packet::new(sync, body, parity);
    assert_eq!(packet.is_valid(), expected);
    Ok(())
}

#[test]
fn test_packet_is_valid_6() -> Result<(), Error> {
    let sync: u8 = 0b101;
    let body: [u8; 2] = [0b10000000, 0b00000001];
    let parity: u8 = 1;
    let expected: bool = false;
    let packet = Packet::new(sync, body, parity);
    assert_eq!(packet.is_valid(), expected);
    Ok(())
}

#[test]
fn test_packet_is_valid_7() -> Result<(), Error> {
    let sync: u8 = 0b101;
    let body: [u8; 2] = [0b10000000, 0b10000001];
    let parity: u8 = 0;
    let expected: bool = false;
    let packet = Packet::new(sync, body, parity);
    assert_eq!(packet.is_valid(), expected);
    Ok(())
}

#[test]
fn test_packet_is_valid_8() -> Result<(), Error> {
    let sync: u8 = 0b110;
    let body: [u8; 2] = [0b10000000, 0b00000001];
    let parity: u8 = 1;
    let expected: bool = false;
    let packet = Packet::new(sync, body, parity);
    assert_eq!(packet.is_valid(), expected);
    Ok(())
}

#[test]
fn test_packet_is_valid_9() -> Result<(), Error> {
    let sync: u8 = 0b110;
    let body: [u8; 2] = [0b10000000, 0b10000001];
    let parity: u8 = 0;
    let expected: bool = false;
    let packet = Packet::new(sync, body, parity);
    assert_eq!(packet.is_valid(), expected);
    Ok(())
}

#[test]
fn test_packet_is_valid_10() -> Result<(), Error> {
    let sync: u8 = 0b111;
    let body: [u8; 2] = [0b10000000, 0b00000001];
    let parity: u8 = 1;
    let expected: bool = false;
    let packet = Packet::new(sync, body, parity);
    assert_eq!(packet.is_valid(), expected);
    Ok(())
}

#[test]
fn test_packet_is_valid_11() -> Result<(), Error> {
    let sync: u8 = 0b111;
    let body: [u8; 2] = [0b10000000, 0b10000001];
    let parity: u8 = 0;
    let expected: bool = false;
    let packet = Packet::new(sync, body, parity);
    assert_eq!(packet.is_valid(), expected);
    Ok(())
}

#[test]
fn test_packet_is_valid_12() -> Result<(), Error> {
    let sync: u8 = 0b100;
    let body: [u8; 2] = [0b10000000, 0b00000001];
    let parity: u8 = 1;
    let expected: bool = true;
    let packet = Packet::new(sync, body, parity);
    assert_eq!(packet.is_valid(), expected);
    Ok(())
}

#[test]
fn test_packet_is_valid_13() -> Result<(), Error> {
    let sync: u8 = 0b100;
    let body: [u8; 2] = [0b10000000, 0b10000001];
    let parity: u8 = 0;
    let expected: bool = true;
    let packet = Packet::new(sync, body, parity);
    assert_eq!(packet.is_valid(), expected);
    Ok(())
}

#[test]
fn test_packet_is_valid_14() -> Result<(), Error> {
    let sync: u8 = 0b100;
    let body: [u8; 2] = [0b10000000, 0b00100000];
    let parity: u8 = 0;
    let expected: bool = false;
    let packet = Packet::new(sync, body, parity);
    assert_eq!(packet.is_valid(), expected);
    Ok(())
}

#[test]
fn test_packet_is_valid_15() -> Result<(), Error> {
    let sync: u8 = 0b100;
    let body: [u8; 2] = [0b10000001, 0b10000000];
    let parity: u8 = 1;
    let expected: bool = false;
    let packet = Packet::new(sync, body, parity);
    assert_eq!(packet.is_valid(), expected);
    Ok(())
}


// ----------------------------------------------------------
// Derives

#[test]
fn test_packet_clone() {
    let word = WordType::Command(CommandWord::new());
    let packet1 = Packet::try_from(word).unwrap();
    let packet2 = packet1.clone();
    assert_eq!(packet1, packet2);
}

// ----------------------------------------------------------

// ----------------------------------------------------------
// Traits

#[test]
fn test_packet_try_from_word_0() -> Result<(), Error> {
    let word: WordType = WordType::Command(CommandWord::new());
    let expected: bool = true;
    let result = Packet::try_from(word);
    assert_eq!(result.is_ok(), expected);
    Ok(())
}

#[test]
fn test_packet_try_from_word_1() -> Result<(), Error> {
    let word: WordType = WordType::Status(StatusWord::new());
    let expected: bool = true;
    let result = Packet::try_from(word);
    assert_eq!(result.is_ok(), expected);
    Ok(())
}

#[test]
fn test_packet_try_from_word_2() -> Result<(), Error> {
    let word: WordType = WordType::Data(DataWord::new());
    let expected: bool = true;
    let result = Packet::try_from(word);
    assert_eq!(result.is_ok(), expected);
    Ok(())
}

#[test]
fn test_packet_try_from_word_3() -> Result<(), Error> {
    let word: WordType = WordType::Empty;
    let expected: bool = false;
    let result = Packet::try_from(word);
    assert_eq!(result.is_ok(), expected);
    Ok(())
}


#[test]
fn test_command_try_from_packet_0() -> Result<(), Error> {
    let input: &[u8] = &[0b00100000, 0b00000000, 0b00010000];
    let expected: bool = false;
    let result = CommandWord::try_from(Packet::read(input, 0).unwrap());
    assert_eq!(result.is_ok(), expected);
    Ok(())
}

#[test]
fn test_command_try_from_packet_1() -> Result<(), Error> {
    let input: &[u8] = &[0b01000000, 0b00000000, 0b00010000];
    let expected: bool = false;
    let result = CommandWord::try_from(Packet::read(input, 0).unwrap());
    assert_eq!(result.is_ok(), expected);
    Ok(())
}

#[test]
fn test_command_try_from_packet_2() -> Result<(), Error> {
    let input: &[u8] = &[0b01100000, 0b00000000, 0b00010000];
    let expected: bool = false;
    let result = CommandWord::try_from(Packet::read(input, 0).unwrap());
    assert_eq!(result.is_ok(), expected);
    Ok(())
}

#[test]
fn test_command_try_from_packet_3() -> Result<(), Error> {
    let input: &[u8] = &[0b10100000, 0b00000000, 0b00010000];
    let expected: bool = false;
    let result = CommandWord::try_from(Packet::read(input, 0).unwrap());
    assert_eq!(result.is_ok(), expected);
    Ok(())
}

#[test]
fn test_command_try_from_packet_4() -> Result<(), Error> {
    let input: &[u8] = &[0b11000000, 0b00000000, 0b00010000];
    let expected: bool = false;
    let result = CommandWord::try_from(Packet::read(input, 0).unwrap());
    assert_eq!(result.is_ok(), expected);
    Ok(())
}

#[test]
fn test_command_try_from_packet_5() -> Result<(), Error> {
    let input: &[u8] = &[0b10100000, 0b00000000, 0b00010000];
    let expected: bool = false;
    let result = CommandWord::try_from(Packet::read(input, 0).unwrap());
    assert_eq!(result.is_ok(), expected);
    Ok(())
}

#[test]
fn test_command_try_from_packet_6() -> Result<(), Error> {
    let input: &[u8] = &[0b10000000, 0b00000000, 0b00010000];
    let expected: bool = true;
    let result = CommandWord::try_from(Packet::read(input, 0).unwrap());
    assert_eq!(result.is_ok(), expected);
    Ok(())
}

#[test]
fn test_command_try_from_packet_7() -> Result<(), Error> {
    let input: &[u8] = &[0b10000000, 0b00000000, 0b00010000];
    let expected: bool = true;
    let result = CommandWord::try_from(Packet::read(input, 0).unwrap());
    assert_eq!(result.is_ok(), expected);
    Ok(())
}


#[test]
fn test_status_try_from_packet_0() -> Result<(), Error> {
    let input: &[u8] = &[0b00100000, 0b00000000, 0b00010000];
    let expected: bool = false;
    let result = StatusWord::try_from(Packet::read(input, 0).unwrap());
    assert_eq!(result.is_ok(), expected);
    Ok(())
}

#[test]
fn test_status_try_from_packet_1() -> Result<(), Error> {
    let input: &[u8] = &[0b01000000, 0b00000000, 0b00010000];
    let expected: bool = false;
    let result = StatusWord::try_from(Packet::read(input, 0).unwrap());
    assert_eq!(result.is_ok(), expected);
    Ok(())
}

#[test]
fn test_status_try_from_packet_2() -> Result<(), Error> {
    let input: &[u8] = &[0b01100000, 0b00000000, 0b00010000];
    let expected: bool = false;
    let result = StatusWord::try_from(Packet::read(input, 0).unwrap());
    assert_eq!(result.is_ok(), expected);
    Ok(())
}

#[test]
fn test_status_try_from_packet_3() -> Result<(), Error> {
    let input: &[u8] = &[0b10100000, 0b00000000, 0b00010000];
    let expected: bool = false;
    let result = StatusWord::try_from(Packet::read(input, 0).unwrap());
    assert_eq!(result.is_ok(), expected);
    Ok(())
}

#[test]
fn test_status_try_from_packet_4() -> Result<(), Error> {
    let input: &[u8] = &[0b11000000, 0b00000000, 0b00010000];
    let expected: bool = false;
    let result = StatusWord::try_from(Packet::read(input, 0).unwrap());
    assert_eq!(result.is_ok(), expected);
    Ok(())
}

#[test]
fn test_status_try_from_packet_5() -> Result<(), Error> {
    let input: &[u8] = &[0b10100000, 0b00000000, 0b00010000];
    let expected: bool = false;
    let result = StatusWord::try_from(Packet::read(input, 0).unwrap());
    assert_eq!(result.is_ok(), expected);
    Ok(())
}

#[test]
fn test_status_try_from_packet_6() -> Result<(), Error> {
    let input: &[u8] = &[0b10000000, 0b00000000, 0b00010000];
    let expected: bool = true;
    let result = StatusWord::try_from(Packet::read(input, 0).unwrap());
    assert_eq!(result.is_ok(), expected);
    Ok(())
}

#[test]
fn test_status_try_from_packet_7() -> Result<(), Error> {
    let input: &[u8] = &[0b10000000, 0b00000000, 0b00010000];
    let expected: bool = true;
    let result = StatusWord::try_from(Packet::read(input, 0).unwrap());
    assert_eq!(result.is_ok(), expected);
    Ok(())
}


#[test]
fn test_data_try_from_packet_0() -> Result<(), Error> {
    let input: &[u8] = &[0b01000000, 0b00000000, 0b00010000];
    let expected: bool = false;
    let result = DataWord::try_from(Packet::read(input, 0).unwrap());
    assert_eq!(result.is_ok(), expected);
    Ok(())
}

#[test]
fn test_data_try_from_packet_1() -> Result<(), Error> {
    let input: &[u8] = &[0b01100000, 0b00000000, 0b00010000];
    let expected: bool = false;
    let result = DataWord::try_from(Packet::read(input, 0).unwrap());
    assert_eq!(result.is_ok(), expected);
    Ok(())
}

#[test]
fn test_data_try_from_packet_2() -> Result<(), Error> {
    let input: &[u8] = &[0b10000000, 0b00000000, 0b00010000];
    let expected: bool = false;
    let result = DataWord::try_from(Packet::read(input, 0).unwrap());
    assert_eq!(result.is_ok(), expected);
    Ok(())
}

#[test]
fn test_data_try_from_packet_3() -> Result<(), Error> {
    let input: &[u8] = &[0b10100000, 0b00000000, 0b00010000];
    let expected: bool = false;
    let result = DataWord::try_from(Packet::read(input, 0).unwrap());
    assert_eq!(result.is_ok(), expected);
    Ok(())
}

#[test]
fn test_data_try_from_packet_4() -> Result<(), Error> {
    let input: &[u8] = &[0b11000000, 0b00000000, 0b00010000];
    let expected: bool = false;
    let result = DataWord::try_from(Packet::read(input, 0).unwrap());
    assert_eq!(result.is_ok(), expected);
    Ok(())
}

#[test]
fn test_data_try_from_packet_5() -> Result<(), Error> {
    let input: &[u8] = &[0b10100000, 0b00000000, 0b00010000];
    let expected: bool = false;
    let result = DataWord::try_from(Packet::read(input, 0).unwrap());
    assert_eq!(result.is_ok(), expected);
    Ok(())
}

#[test]
fn test_data_try_from_packet_6() -> Result<(), Error> {
    let input: &[u8] = &[0b00100000, 0b00000000, 0b00010000];
    let expected: bool = true;
    let result = DataWord::try_from(Packet::read(input, 0).unwrap());
    assert_eq!(result.is_ok(), expected);
    Ok(())
}

#[test]
fn test_data_try_from_packet_7() -> Result<(), Error> {
    let input: &[u8] = &[0b00100000, 0b00000000, 0b00010000];
    let expected: bool = true;
    let result = DataWord::try_from(Packet::read(input, 0).unwrap());
    assert_eq!(result.is_ok(), expected);
    Ok(())
}


// ----------------------------------------------------------
