use class_of_device::{
    AudioVideo, Computer, Health, LanNetworkAccessPoint, MajorDeviceClass, MinorDeviceClass,
    Miscellaneous, Phone, Toy, Uncategorized, Wearable,
};

#[test]
fn major_classes() {
    assert_eq!(Miscellaneous::major_device_class(), 0x0000);
    assert_eq!(Computer::major_device_class(), 0x0100);
    assert_eq!(Phone::major_device_class(), 0x0200);
    assert_eq!(LanNetworkAccessPoint::major_device_class(), 0x0300);
    assert_eq!(AudioVideo::major_device_class(), 0x0500);
    assert_eq!(Wearable::major_device_class(), 0x0700);
    assert_eq!(Toy::major_device_class(), 0x0800);
    assert_eq!(Health::major_device_class(), 0x0900);
    assert_eq!(Uncategorized::major_device_class(), 0x1F00);
}

#[test]
fn computer_minor_classes() {
    assert_eq!(Computer::Uncategorized.minor_device_class(), 0x00);
    assert_eq!(Computer::DesktopWorkstation.minor_device_class(), 0x04);
    assert_eq!(Computer::ServerClassComputer.minor_device_class(), 0x08);
    assert_eq!(Computer::Laptop.minor_device_class(), 0x0C);
    assert_eq!(Computer::HandheldPcPda.minor_device_class(), 0x10);
    assert_eq!(Computer::PalmSizedPcPda.minor_device_class(), 0x14);
    assert_eq!(Computer::WearableComputer.minor_device_class(), 0x18);
    assert_eq!(Computer::Tablet.minor_device_class(), 0x1C);
}

#[test]
fn phone_minor_classes() {
    assert_eq!(Phone::Uncategorized.minor_device_class(), 0x00);
    assert_eq!(Phone::Cellular.minor_device_class(), 0x04);
    assert_eq!(Phone::Cordless.minor_device_class(), 0x08);
    assert_eq!(Phone::Smartphone.minor_device_class(), 0x0C);
    assert_eq!(Phone::WiredModemOrVoiceGateway.minor_device_class(), 0x10);
    assert_eq!(Phone::CommonIsdnAccess.minor_device_class(), 0x14);
}

#[test]
fn network_access_point_minor_classes() {
    assert_eq!(LanNetworkAccessPoint::FullyAvailable.minor_device_class(), 0x00);
    assert_eq!(LanNetworkAccessPoint::Utilized1To17Percent.minor_device_class(), 0x20);
    assert_eq!(LanNetworkAccessPoint::Utilized17To33Percent.minor_device_class(), 0x40);
    assert_eq!(LanNetworkAccessPoint::Utilized33To50Percent.minor_device_class(), 0x60);
    assert_eq!(LanNetworkAccessPoint::Utilized50To67Percent.minor_device_class(), 0x80);
    assert_eq!(LanNetworkAccessPoint::Utilized67To83Percent.minor_device_class(), 0xA0);
    assert_eq!(LanNetworkAccessPoint::Utilized83To99Percent.minor_device_class(), 0xC0);
    assert_eq!(LanNetworkAccessPoint::NoServiceAvailable.minor_device_class(), 0xE0);
}

#[test]
fn audio_video_minor_classes() {
    assert_eq!(AudioVideo::Uncategorized.minor_device_class(), 0x00);
    assert_eq!(AudioVideo::WearableHeadsetDevice.minor_device_class(), 0x04);
    assert_eq!(AudioVideo::HandsFreeDevice.minor_device_class(), 0x08);
    assert_eq!(AudioVideo::Microphone.minor_device_class(), 0x10);
    assert_eq!(AudioVideo::Loudspeaker.minor_device_class(), 0x14);
    assert_eq!(AudioVideo::Headphones.minor_device_class(), 0x18);
    assert_eq!(AudioVideo::PortableAudio.minor_device_class(), 0x1C);
    assert_eq!(AudioVideo::CarAudio.minor_device_class(), 0x20);
    assert_eq!(AudioVideo::SetTopBox.minor_device_class(), 0x24);
    assert_eq!(AudioVideo::HiFiAudioDevice.minor_device_class(), 0x28);
    assert_eq!(AudioVideo::Vcr.minor_device_class(), 0x2C);
    assert_eq!(AudioVideo::VideoCamera.minor_device_class(), 0x30);
    assert_eq!(AudioVideo::Camcorder.minor_device_class(), 0x34);
    assert_eq!(AudioVideo::VideoMonitor.minor_device_class(), 0x38);
    assert_eq!(AudioVideo::VideoDisplayAndLoudspeaker.minor_device_class(), 0x3C);
    assert_eq!(AudioVideo::VideoConferencing.minor_device_class(), 0x40);
    assert_eq!(AudioVideo::GamingToy.minor_device_class(), 0x48);
}

#[test]
fn wearable_minor_classes() {
    assert_eq!(Wearable::Wristwatch.minor_device_class(), 0x04);
    assert_eq!(Wearable::Pager.minor_device_class(), 0x08);
    assert_eq!(Wearable::Jacket.minor_device_class(), 0x0C);
    assert_eq!(Wearable::Helmet.minor_device_class(), 0x10);
    assert_eq!(Wearable::Glasses.minor_device_class(), 0x14);
    assert_eq!(Wearable::Pin.minor_device_class(), 0x18);
}

#[test]
fn toy_minor_classes() {
    assert_eq!(Toy::Robot.minor_device_class(), 0x04);
    assert_eq!(Toy::Vehicle.minor_device_class(), 0x08);
    assert_eq!(Toy::DollActionFigure.minor_device_class(), 0x0C);
    assert_eq!(Toy::Controller.minor_device_class(), 0x10);
    assert_eq!(Toy::Game.minor_device_class(), 0x14);
}

#[test]
fn health_minor_classes() {
    assert_eq!(Health::Undefined.minor_device_class(), 0x00);
    assert_eq!(Health::BloodPressureMonitor.minor_device_class(), 0x04);
    assert_eq!(Health::Thermometer.minor_device_class(), 0x08);
    assert_eq!(Health::WeighingScale.minor_device_class(), 0x0C);
    assert_eq!(Health::GlucoseMeter.minor_device_class(), 0x10);
    assert_eq!(Health::PulseOximeter.minor_device_class(), 0x14);
    assert_eq!(Health::HeartPulseRateMonitor.minor_device_class(), 0x18);
    assert_eq!(Health::HealthDataDisplay.minor_device_class(), 0x1C);
    assert_eq!(Health::StepCounter.minor_device_class(), 0x20);
    assert_eq!(Health::BodyCompositionAnalyzer.minor_device_class(), 0x24);
    assert_eq!(Health::PeakFlowMonitor.minor_device_class(), 0x28);
    assert_eq!(Health::MedicationMonitor.minor_device_class(), 0x2C);
    assert_eq!(Health::KneeProsthesis.minor_device_class(), 0x30);
    assert_eq!(Health::AnkleProsthesis.minor_device_class(), 0x34);
    assert_eq!(Health::GenericHealthManager.minor_device_class(), 0x38);
    assert_eq!(Health::PersonalMobilityDevice.minor_device_class(), 0x3C);
}

#[test]
fn raw_minor_classes() {
    assert_eq!(Miscellaneous { minor_device_class: 0x2C }.minor_device_class(), 0x2C);
    assert_eq!(Uncategorized { minor_device_class: 0x3F }.minor_device_class(), 0x3F);
    assert_eq!(Uncategorized::default().minor_device_class(), 0);
}

#[test]
fn category_defaults() {
    assert_eq!(Computer::default(), Computer::Uncategorized);
    assert_eq!(Phone::default(), Phone::Uncategorized);
    assert_eq!(LanNetworkAccessPoint::default(), LanNetworkAccessPoint::FullyAvailable);
    assert_eq!(AudioVideo::default(), AudioVideo::Uncategorized);
    assert_eq!(Health::default(), Health::Undefined);
    assert_eq!(Uncategorized::default(), Uncategorized { minor_device_class: 0 });
}

#[test]
fn copies_compare_equal() {
    let computer = Computer::Laptop;
    let copy = computer;
    assert_eq!(computer, copy);
    assert_eq!(computer.clone(), Computer::Laptop);
    assert_ne!(Computer::Laptop, Computer::Tablet);
    assert_ne!(Toy::Robot, Toy::Game);
    assert_eq!(format!("{:?}", Wearable::Helmet), "Helmet");
}
