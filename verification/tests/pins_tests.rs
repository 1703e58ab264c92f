use h7_spi::clock::Instance;
use h7_spi::pins::{
    miso_pin_ok, mosi_pin_ok, pins_ok, sck_pin_ok, NoMiso, NoMosi, NoSck, PinId, Pins, Port,
};

#[test]
fn spi1_admits_its_table_pins() {
    assert!(sck_pin_ok(Instance::Spi1, PinId::new(Port::A, 5, 5)));
    assert!(sck_pin_ok(Instance::Spi1, PinId::new(Port::B, 3, 5)));
    assert!(sck_pin_ok(Instance::Spi1, PinId::new(Port::G, 11, 5)));
    assert!(miso_pin_ok(Instance::Spi1, PinId::new(Port::A, 6, 5)));
    assert!(mosi_pin_ok(Instance::Spi1, PinId::new(Port::A, 7, 5)));
}

#[test]
fn wrong_alternate_function_is_rejected() {
    // The pad is right but the alternate-function code routes it elsewhere.
    assert!(!sck_pin_ok(Instance::Spi1, PinId::new(Port::A, 5, 8)));
    // On instance 6 the same pad needs the other code.
    assert!(sck_pin_ok(Instance::Spi6, PinId::new(Port::A, 5, 8)));
    assert!(!sck_pin_ok(Instance::Spi6, PinId::new(Port::A, 5, 5)));
}

#[test]
fn roles_are_not_interchangeable() {
    // A valid clock pin does not serve the data roles.
    let sck = PinId::new(Port::A, 5, 5);
    assert!(!miso_pin_ok(Instance::Spi1, sck));
    assert!(!mosi_pin_ok(Instance::Spi1, sck));
}

#[test]
fn instances_have_distinct_tables() {
    let spi2_sck = PinId::new(Port::I, 1, 5);
    assert!(sck_pin_ok(Instance::Spi2, spi2_sck));
    assert!(!sck_pin_ok(Instance::Spi1, spi2_sck));
    assert!(mosi_pin_ok(Instance::Spi3, PinId::new(Port::B, 2, 7)));
    assert!(!mosi_pin_ok(Instance::Spi4, PinId::new(Port::B, 2, 7)));
    assert!(mosi_pin_ok(Instance::Spi4, PinId::new(Port::E, 14, 5)));
    assert!(miso_pin_ok(Instance::Spi5, PinId::new(Port::J, 11, 5)));
}

#[test]
fn absent_pins_are_always_valid() {
    assert!(pins_ok(Instance::Spi1, None, None, None));
    assert!(pins_ok(Instance::Spi6, None, None, None));
    assert!(pins_ok(
        Instance::Spi1,
        Some(PinId::new(Port::A, 5, 5)),
        None,
        Some(PinId::new(Port::A, 7, 5))
    ));
}

#[test]
fn one_bad_role_rejects_the_assignment() {
    let sck = Some(PinId::new(Port::A, 5, 5));
    let miso = Some(PinId::new(Port::A, 6, 5));
    let mosi = Some(PinId::new(Port::A, 7, 5));
    assert!(pins_ok(Instance::Spi1, sck, miso, mosi));
    let bad = Some(PinId::new(Port::K, 9, 5));
    assert!(!pins_ok(Instance::Spi1, bad, miso, mosi));
    assert!(!pins_ok(Instance::Spi1, sck, bad, mosi));
    assert!(!pins_ok(Instance::Spi1, sck, miso, bad));
}

#[test]
fn filler_tuple_offers_no_pins() {
    let pins = (NoSck, NoMiso, NoMosi);
    assert_eq!(pins.pin_ids(), (None, None, None));
}

#[test]
fn physical_tuple_offers_its_pins() {
    let sck = PinId::new(Port::A, 5, 5);
    let mosi = PinId::new(Port::A, 7, 5);
    let pins = (sck, NoMiso, mosi);
    assert_eq!(pins.pin_ids(), (Some(sck), None, Some(mosi)));
}
