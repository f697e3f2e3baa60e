use gameboy::bess::{
    CoreBlock, Huc3Block, InfoBlock, Mbc7Block, MbcBlock, NameBlock, RtcBlock, Tpp1Block, XaomBlock,
};

#[test]
fn name_block_read() {
    let mut bytes = b"NAME".to_vec();
    bytes.push(10);
    for b in b"0123456789" {
        bytes.push(*b);
    }
    let mut i = 0;
    let block = NameBlock::read(&bytes, &mut i).unwrap();
    assert_eq!(block.name, bytes[5..]);
    assert_eq!(i, 15);
}

#[test]
fn name_block_read_bad_length() {
    let mut bytes = b"NAME".to_vec();
    bytes.push(11);
    for b in b"0123456789" {
        bytes.push(*b);
    }
    let mut i = 0;
    let block = NameBlock::read(&bytes, &mut i);
    assert!(block.is_err());
}

#[test]
fn info_block_read() {
    let mut bytes = b"INFO".to_vec();
    bytes.push(18);
    for b in b"0123456789abcdef" {
        bytes.push(*b);
    }
    bytes.push(0x34);
    bytes.push(0x12);
    let mut i = 0;
    let block = InfoBlock::read(&bytes, &mut i).unwrap();
    assert_eq!(block.title, bytes[5..5+16]);
    assert_eq!(block.checksum, 0x1234);
}

#[test]
fn info_block_read_bad_length() {
    let mut bytes = b"INFO".to_vec();
    bytes.push(19);
    for b in b"0123456789abcdef" {
        bytes.push(*b);
    }
    bytes.push(0x34);
    bytes.push(0x12);
    let mut i = 0;
    let block = InfoBlock::read(&bytes, &mut i);
    assert!(block.is_err());
}

#[test]
fn core_block_read() {
    let mut bytes = b"CORE".to_vec();
    bytes.push(0xd0);
    
    bytes.push(0x01); bytes.push(0x00); // major
    bytes.push(0x01); bytes.push(0x00); // minor
    for b in b"GD  " { // model
        bytes.push(*b);
    }
    let mut vec1 = vec![
        0x34, 0x12, // PC
        0x78, 0x56, // AF
        0xbc, 0x9a, // BC
        0xf0, 0xde, // DE
        0x12, 0x21, // HL
        0x34, 0x43, // SP
        0x01,       // IME
        0xaa,       // IE
        0x02,       // execution state
        0x00,       // reserved
    ];
    bytes.append(&mut vec1);
    // memory-mapped registers
    for _ in 0..128 {
        bytes.push(0);
    }
    let mut vec2 = vec![
        0x00, 0x80, 0x00, 0x00, // ram_size
        0xff, 0xff, 0x00, 0x00, // ram_start
        0x00, 0x20, 0x00, 0x00, // vram_size
        0xff, 0xff, 0x00, 0x00, // vram_start
        0x00, 0x20, 0x00, 0x00, // mbc_ram_size
        0xff, 0xff, 0x00, 0x00, // mbc_ram_start
        0xa0, 0x00, 0x00, 0x00, // oam_size
        0xff, 0xff, 0x00, 0x00, // oam_start
        0x80, 0x00, 0x00, 0x00, // hram_size
        0xff, 0xff, 0x00, 0x00, // hram_start
        0x40, 0x00, 0x00, 0x00, // bgp_size
        0xff, 0xff, 0x00, 0x00, // bgp_start
        0x40, 0x00, 0x00, 0x00, // obp_size
        0xff, 0xff, 0x00, 0x00, // obp_start
    ];
    bytes.append(&mut vec2);
    let ram_start_ix = bytes.len() - 52;
    let vram_start_ix = bytes.len() - 44;
    let mbc_ram_start_ix = bytes.len() - 36;
    let oam_start_ix = bytes.len() - 28;
    let hram_start_ix = bytes.len() - 20;
    let bgp_start_ix = bytes.len() - 12;
    let obp_start_ix = bytes.len() - 4;
    bytes[ram_start_ix+1] = (bytes.len() >> 8) as u8;
    bytes[ram_start_ix] = bytes.len() as u8;
    for _ in 0..0x8000 {
        bytes.push(0);
    }
    bytes[vram_start_ix+1] = (bytes.len() >> 8) as u8;
    bytes[vram_start_ix] = bytes.len() as u8;
    for _ in 0..0x2000 {
        bytes.push(0);
    }
    bytes[mbc_ram_start_ix+1] = (bytes.len() >> 8) as u8;
    bytes[mbc_ram_start_ix] = bytes.len() as u8;
    for _ in 0..0x2000 {
        bytes.push(0);
    }
    bytes[oam_start_ix+1] = (bytes.len() >> 8) as u8;
    bytes[oam_start_ix] = bytes.len() as u8;
    for _ in 0..0xa0 {
        bytes.push(0);
    }
    bytes[hram_start_ix+1] = (bytes.len() >> 8) as u8;
    bytes[hram_start_ix] = bytes.len() as u8;
    for _ in 0..0x80 {
        bytes.push(0);
    }
    bytes[bgp_start_ix+1] = (bytes.len() >> 8) as u8;
    bytes[bgp_start_ix] = bytes.len() as u8;
    for _ in 0..0x40 {
        bytes.push(0);
    }
    bytes[obp_start_ix+1] = (bytes.len() >> 8) as u8;
    bytes[obp_start_ix] = bytes.len() as u8;
    for _ in 0..0x40 {
        bytes.push(0);
    }
    let mut i = 0;
    let block = CoreBlock::read(&bytes, &mut i).unwrap();
    assert_eq!(block.major, 1);
    assert_eq!(block.minor, 1);
    assert_eq!(block.model, <[u8; 4] as std::convert::TryInto<[u8; 4]>>::try_into(*b"GD  ").unwrap());
    assert_eq!(block.pc, 0x1234);
    assert_eq!(block.af, 0x5678);
    assert_eq!(block.bc, 0x9abc);
    assert_eq!(block.de, 0xdef0);
    assert_eq!(block.hl, 0x2112);
    assert_eq!(block.sp, 0x4334);
    assert_eq!(block.ime, 0x01);
    assert_eq!(block.ie, 0xaa);
    assert_eq!(block.execution_state, 0x02);
    assert_eq!(block.reserved, 0x00);
    assert_eq!(&block.memory_mapped_registers, &[0; 128]);
    assert_eq!(block.ram.len(), 0x8000);
    assert_eq!(block.vram.len(), 0x2000);
    assert_eq!(block.mbc_ram.len(), 0x2000);
    assert_eq!(block.oam.len(), 0xa0);
    assert_eq!(block.hram.len(), 0x80);
    assert_eq!(block.bgp.len(), 0x40);
    assert_eq!(block.obp.len(), 0x40);
}

#[test]
fn xaom_block_read() {
    let mut bytes = b"XAOM".to_vec();
    bytes.push(0x60);
    let mut xaom_bytes = Vec::with_capacity(0x60);
    for i in 0..0x60 {
        xaom_bytes.push(i);
    }
    for b in &xaom_bytes {
        bytes.push(*b);
    }
    let mut i = 0;
    let block = XaomBlock::read(&bytes, &mut i).unwrap();
    assert_eq!(block.bytes.to_vec(), xaom_bytes);
}

#[test]
fn mbc_block_read() {
    let mut bytes = b"MBC ".to_vec();
    bytes.push(0x09);
    let mut vec = vec![
        0x34, 0x12, 0x0a,
        0xff, 0xff, 0x0b,
        0xcd, 0xab, 0x0c,
    ];
    bytes.append(&mut vec);
    let mut i = 0;
    let block = MbcBlock::read(&bytes, &mut i).unwrap();
    assert_eq!(block.registers[0], (0x1234, 0x0a));
    assert_eq!(block.registers[1], (0xffff, 0x0b));
    assert_eq!(block.registers[2], (0xabcd, 0x0c));
}

#[test]
fn rtc_block_read() {
    let mut bytes = b"RTC ".to_vec();
    bytes.push(0x30);
    let mut vec = vec![
        0x01, 0x00, 0x00, 0x00, // seconds
        0x02, 0x00, 0x00, 0x00, // minutes
        0x03, 0x00, 0x00, 0x00, // hours
        0x04, 0x00, 0x00, 0x00, // days_low
        0x05, 0x00, 0x00, 0x00, // days_high
        0x06, 0x00, 0x00, 0x00, // latched_seconds
        0x07, 0x00, 0x00, 0x00, // latched_minutes
        0x08, 0x00, 0x00, 0x00, // latched_hours
        0x09, 0x00, 0x00, 0x00, // latched_days_low
        0x0a, 0x00, 0x00, 0x00, // latched_days_high
    ];
    bytes.append(&mut vec);
    // unix_timestamp
    bytes.push(0xf0);
    bytes.push(0xde); 
    bytes.push(0xbc); 
    bytes.push(0x9a); 
    bytes.push(0x78);
    bytes.push(0x56); 
    bytes.push(0x34); 
    bytes.push(0x12); 
    let mut i = 0;
    let block = RtcBlock::read(&bytes, &mut i).unwrap();
    assert_eq!(block.seconds, 0x01);
    assert_eq!(block.minutes, 0x02);
    assert_eq!(block.hours, 0x03);
    assert_eq!(block.days_low, 0x04);
    assert_eq!(block.days_high, 0x05);
    assert_eq!(block.latched_seconds, 0x06);
    assert_eq!(block.latched_minutes, 0x07);
    assert_eq!(block.latched_hours, 0x08);
    assert_eq!(block.latched_days_low, 0x09);
    assert_eq!(block.latched_days_high, 0x0a);
    assert_eq!(block.unix_timestamp, 0x123456789abcdef0);
}

#[test]
fn huc3_block_read() {
    let mut bytes = b"HUC3".to_vec();
    bytes.push(0x11);
    // unix_timestamp
    bytes.push(0xf0);
    bytes.push(0xde); 
    bytes.push(0xbc); 
    bytes.push(0x9a); 
    bytes.push(0x78);
    bytes.push(0x56); 
    bytes.push(0x34); 
    bytes.push(0x12);
    let mut vec = vec![
        0x34, 0x12, // rtc_minutes
        0x78, 0x56, // rtc_days
        0xbc, 0x9a, // alarm_minutes
        0xf0, 0xde, // alarm_days
    ];
    bytes.append(&mut vec);
    bytes.push(0x01); // alarm_enabled
    let mut i = 0;
    let block = Huc3Block::read(&bytes, &mut i).unwrap();
    assert_eq!(block.unix_timestamp, 0x123456789abcdef0);
    assert_eq!(block.rtc_minutes, 0x1234);
    assert_eq!(block.rtc_days, 0x5678);
    assert_eq!(block.alarm_minutes, 0x9abc);
    assert_eq!(block.alarm_days, 0xdef0);
    assert_eq!(block.alarm_enabled, 0x01);
}

#[test]
fn tpp1_block_read() {
    let mut bytes = b"TPP1".to_vec();
    bytes.push(0x11);
    // unix_timestamp
    bytes.push(0xf0);
    bytes.push(0xde); 
    bytes.push(0xbc); 
    bytes.push(0x9a); 
    bytes.push(0x78);
    bytes.push(0x56); 
    bytes.push(0x34); 
    bytes.push(0x12); 
    let mut vec = vec![
        0x78, 0x56, 0x34, 0x12, // rtc
        0xf0, 0xde, 0xbc, 0x9a, // latched_rtc 
    ];
    bytes.append(&mut vec);
    bytes.push(0xcc); // mr4
    let mut i = 0;
    let block = Tpp1Block::read(&bytes, &mut i).unwrap();
    assert_eq!(block.unix_timestamp, 0x123456789abcdef0);
    assert_eq!(block.rtc, 0x12345678);
    assert_eq!(block.latched_rtc, 0x9abcdef0);
    assert_eq!(block.mr4, 0xcc);
}

#[test]
fn mbc7_block_read() {
    let mut bytes = b"MBC7".to_vec();
    bytes.push(0x0a);
    bytes.push(0xcc); // flags
    bytes.push(0xee); // argument_bits_left
    let mut vec = vec![
        0x34, 0x12, // eeprom_command
        0x78, 0x56, // pending_bits
        0xbc, 0x9a, // latched_gyro_x
        0xf0, 0xde, // latched_gyro_y
    ];
    bytes.append(&mut vec);
    let mut i = 0;
    let block = Mbc7Block::read(&bytes, &mut i).unwrap();
    assert_eq!(block.flags, 0xcc);
    assert_eq!(block.argument_bits_left, 0xee);
    assert_eq!(block.eeprom_command, 0x1234);
    assert_eq!(block.pending_bits, 0x5678);
    assert_eq!(block.latched_gyro_x, 0x9abc);
    assert_eq!(block.latched_gyro_y, 0xdef0);
}
