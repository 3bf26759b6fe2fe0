use class_of_device::{
    make_class_of_device, AudioVideo, Computer, DeviceClass, Health, Imaging,
    LanNetworkAccessPoint, MajorDeviceClass, MajorServiceClass, MinorDeviceClass, Miscellaneous,
    Peripheral, PeripheralLower, PeripheralUpper, Phone, Toy, Uncategorized, Wearable,
};

#[test]
fn laptop_without_services() {
    let class = make_class_of_device(MajorServiceClass::default(), Computer::Laptop);
    assert_eq!(class, 0x0100 | 0x0C);
    assert_eq!(class, 0x010C);
}

#[test]
fn smartphone_without_services() {
    let class = make_class_of_device(MajorServiceClass::default(), Phone::Smartphone);
    assert_eq!(class, 0x0200 | 0x0C);
    assert_eq!(class, 0x020C);
}

#[test]
fn robot_with_audio_and_telephony() {
    let services = MajorServiceClass { audio: true, telephony: true, ..MajorServiceClass::empty() };
    let class = make_class_of_device(services, Toy::Robot);
    assert_eq!(class, (1 << 21) | (1 << 22) | 0x0800 | 0x04);
    assert_eq!(class, 0x0060_0804);
}

#[test]
fn keyboard_with_joystick_without_services() {
    let peripheral = Peripheral::new(PeripheralUpper::Keyboard, PeripheralLower::Joystick);
    let class = make_class_of_device(MajorServiceClass::default(), peripheral);
    assert_eq!(class, 0x0500 | 0x40 | 0x04);
    assert_eq!(class, 0x0544);
}

#[test]
fn uncategorized_with_raw_minor_class() {
    let class = make_class_of_device(
        MajorServiceClass::default(),
        Uncategorized { minor_device_class: 0x3F },
    );
    assert_eq!(class, 0x1F00 | 0x3F);
    assert_eq!(class, 0x1F3F);
}

#[test]
fn class_of_device_joins_its_three_parts() {
    let services = MajorServiceClass {
        limited_discoverable_mode: true,
        networking: true,
        information: true,
        ..MajorServiceClass::empty()
    };
    let device = AudioVideo::Headphones;
    let class = make_class_of_device(services, device);
    assert_eq!(
        class,
        services.major_service_class()
            | AudioVideo::major_device_class()
            | device.minor_device_class()
    );
    assert_eq!(class, 0x0082_2518);
}

#[test]
fn device_class_joins_major_and_minor() {
    assert_eq!(Computer::Tablet.device_class(), 0x011C);
    assert_eq!(Phone::Cordless.device_class(), 0x0208);
    assert_eq!(LanNetworkAccessPoint::NoServiceAvailable.device_class(), 0x03E0);
    assert_eq!(AudioVideo::GamingToy.device_class(), 0x0548);
    assert_eq!(
        Peripheral::new(
            PeripheralUpper::ComboKeyboardPointingDevice,
            PeripheralLower::HandheldGesturalInputDevice
        )
        .device_class(),
        0x05E4
    );
    assert_eq!(
        Imaging { display: true, camera: false, scanner: false, printer: true }.device_class(),
        0x0690
    );
    assert_eq!(Wearable::Pin.device_class(), 0x0718);
    assert_eq!(Toy::Game.device_class(), 0x0814);
    assert_eq!(Health::PersonalMobilityDevice.device_class(), 0x093C);
    assert_eq!(Uncategorized { minor_device_class: 0x04 }.device_class(), 0x1F04);
    assert_eq!(Miscellaneous { minor_device_class: 0x08 }.device_class(), 0x0008);
}

#[test]
fn parts_inside_their_fields_can_be_read_back() {
    let services = MajorServiceClass {
        positioning: true,
        capturing: true,
        object_transfer: true,
        ..MajorServiceClass::empty()
    };
    let device = Health::GlucoseMeter;
    let class = make_class_of_device(services, device);
    assert_eq!(class & 0x00FF_E000, services.major_service_class());
    assert_eq!(class & 0x0000_1F00, Health::major_device_class());
    assert_eq!(class & 0x0000_00FC, device.minor_device_class());
    assert_eq!(
        class,
        services.major_service_class() + Health::major_device_class() + device.minor_device_class()
    );
}

#[test]
fn raw_minor_class_is_used_as_given() {
    let wide = Miscellaneous { minor_device_class: 0xFFFF_FFFF };
    assert_eq!(wide.minor_device_class(), 0xFFFF_FFFF);
    assert_eq!(make_class_of_device(MajorServiceClass::empty(), wide), 0xFFFF_FFFF);

    let overlapping = Uncategorized { minor_device_class: 0x0012_3456 };
    assert_eq!(overlapping.minor_device_class(), 0x0012_3456);
    assert_eq!(
        make_class_of_device(MajorServiceClass::empty(), overlapping),
        0x0012_3456 | 0x1F00
    );
}

#[test]
fn major_class_is_the_same_for_every_value_of_a_category() {
    let computers = [
        Computer::Uncategorized,
        Computer::DesktopWorkstation,
        Computer::ServerClassComputer,
        Computer::Laptop,
        Computer::HandheldPcPda,
        Computer::PalmSizedPcPda,
        Computer::WearableComputer,
        Computer::Tablet,
    ];
    for computer in computers {
        assert_eq!(computer.device_class() & 0x1F00, 0x0100);
        assert_eq!(computer.device_class(), 0x0100 | computer.minor_device_class());
    }
    for minor in [0x00u32, 0x04, 0x3C, 0xFC] {
        let device = Uncategorized { minor_device_class: minor };
        assert_eq!(device.device_class() & 0x1F00, 0x1F00);
    }
}
