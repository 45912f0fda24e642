use nes::bus::{new_address_bus, new_data_bus, AddressBus, DataBus};

#[test]
fn test_address_bus() {
    let mut bus: AddressBus = new_address_bus();
    bus.load_low_byte(0xAB);
    assert_eq!(bus.read(), 0x00AB);
    bus.load_high_byte(0x98);
    assert_eq!(bus.read(), 0x98AB);
    bus.load_high_byte(0x12);
    assert_eq!(bus.read(), 0x12AB);
    bus.load_low_byte(0x34);
    assert_eq!(bus.read(), 0x1234);
}

#[test]
fn test_data_bus() {
    let mut bus: DataBus = new_data_bus();
    assert_eq!(bus.read(), 0x00);
    bus.load(0xFA);
    assert_eq!(bus.read(), 0xFA);
}
