use byteorder::{ByteOrder, LittleEndian};
use number_store::account::{Account, Address};
use number_store::program::process_instruction;
use std::mem;

#[test]
fn test_sanity() {
    let program_id = Address::default();
    let mut data = vec![0; mem::size_of::<u64>()];
    LittleEndian::write_u64(&mut data, 0);
    let owner = Address::default();
    let account = Account::new(owner, data);
    let mut instruction_data = vec![0; mem::size_of::<u32>()];

    let mut accounts = vec![account];

    assert_eq!(LittleEndian::read_u32(&accounts[0].data), 0);
    let forty_two = 42_u32;
    LittleEndian::write_u32(&mut instruction_data[0..], forty_two);
    process_instruction(&program_id, &mut accounts, &instruction_data).unwrap();
    assert_eq!(LittleEndian::read_u32(&accounts[0].data), forty_two);
    let triple_six = 666_u32;
    LittleEndian::write_u32(&mut instruction_data[0..], triple_six);
    process_instruction(&program_id, &mut accounts, &instruction_data).unwrap();
    assert_eq!(LittleEndian::read_u32(&accounts[0].data), triple_six);
}
