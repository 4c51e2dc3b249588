use irq_engine::tmp102::Address;
use irq_engine::tmp102::Error;
use irq_engine::tmp102::TMP102;
use irq_engine::tmp102::decode_temperature;

// I2C bus stub standing in for the real peripheral.
#[derive(Debug)]
pub struct I2cStub {
    pub response_data: [u8; 2],
    pub call_count: usize,
}

impl I2cStub {
    pub fn new() -> Self {
        Self { response_data: [0x00, 0x00], call_count: 0 }
    }
}

// Create a new driver and make sure the device address is set.
#[test]
fn test_new_driver() {
    let i2c = I2cStub::new();
    let driver = TMP102::new(i2c, Address::Ground);
    assert_eq!(driver.address.as_u8(), 0x48);
}

#[test]
fn default_address_is_ground() {
    let i2c = I2cStub::new();
    let driver = TMP102::with_default_address(i2c);
    assert_eq!(driver.address, Address::Ground);
    assert_eq!(driver.address.as_u8(), 0x48);
}

#[test]
fn every_add0_wiring_has_its_address() {
    assert_eq!(Address::Ground.as_u8(), 0x48);
    assert_eq!(Address::Vdd.as_u8(), 0x49);
    assert_eq!(Address::Sda.as_u8(), 0x4a);
    assert_eq!(Address::Scl.as_u8(), 0x4b);
}

// 0x190 raw units of 1/16 degree are exactly 25 degrees.
#[test]
fn decode_twenty_five_degrees() {
    let raw = decode_temperature(0x19, 0x00);
    assert_eq!(raw, 400);
    let celsius = raw as f32 * 0.0625;
    assert_eq!(celsius, 25.0);
}

#[test]
fn decode_negative_reading() {
    let raw = decode_temperature(0xe7, 0x00);
    assert_eq!(raw, -400);
    assert_eq!(raw as f32 * 0.0625, -25.0);
}

// A failing bus transaction surfaces as the communication error.
#[test]
fn bus_faults_are_wrapped() {
    let failure: Error<&str> = Error::Communication("bus fault");
    match failure {
        Error::Communication(inner) => assert_eq!(inner, "bus fault"),
    }
}

#[test]
fn decode_extremes_of_the_twelve_bit_range() {
    assert_eq!(decode_temperature(0x7f, 0xf0), 2047);
    assert_eq!(decode_temperature(0x80, 0x00), -2048);
    assert_eq!(decode_temperature(0x00, 0x00), 0);
    // the low nibble of the second byte is below the reading
    assert_eq!(decode_temperature(0x00, 0x0f), 0);
}
