use class_of_device::{Imaging, MajorDeviceClass, MinorDeviceClass};

fn from_bits(bits: u32) -> Imaging {
    Imaging {
        display: bits & 1 != 0,
        camera: bits & 2 != 0,
        scanner: bits & 4 != 0,
        printer: bits & 8 != 0,
    }
}

#[test]
fn imaging_major_class() {
    assert_eq!(Imaging::major_device_class(), 0x0600);
}

#[test]
fn imaging_without_flags_is_zero() {
    assert_eq!(Imaging::default().minor_device_class(), 0);
    assert_eq!(from_bits(0), Imaging::default());
}

#[test]
fn single_imaging_flag_sets_its_bit_alone() {
    let none = Imaging::default();
    assert_eq!(Imaging { display: true, ..none }.minor_device_class(), 1 << 4);
    assert_eq!(Imaging { camera: true, ..none }.minor_device_class(), 1 << 5);
    assert_eq!(Imaging { scanner: true, ..none }.minor_device_class(), 1 << 6);
    assert_eq!(Imaging { printer: true, ..none }.minor_device_class(), 1 << 7);
}

#[test]
fn single_imaging_flags_have_their_assigned_values() {
    let none = Imaging::default();
    assert_eq!(Imaging { display: true, ..none }.minor_device_class(), 0x10);
    assert_eq!(Imaging { camera: true, ..none }.minor_device_class(), 0x20);
    assert_eq!(Imaging { scanner: true, ..none }.minor_device_class(), 0x40);
    assert_eq!(Imaging { printer: true, ..none }.minor_device_class(), 0x80);
}

#[test]
fn imaging_flags_superpose() {
    for first in 0u32..16 {
        for second in 0u32..16 {
            assert_eq!(
                from_bits(first | second).minor_device_class(),
                from_bits(first).minor_device_class() | from_bits(second).minor_device_class()
            );
        }
    }
    assert_eq!(
        Imaging { display: true, camera: true, scanner: false, printer: false }
            .minor_device_class(),
        0x30
    );
}

#[test]
fn all_imaging_flags_fill_bits_4_to_7() {
    let all = Imaging { display: true, camera: true, scanner: true, printer: true };
    assert_eq!(all.minor_device_class(), 0xF0);
}

#[test]
fn imaging_bits_follow_the_flags() {
    for bits in 0u32..16 {
        let imaging = from_bits(bits);
        let code = imaging.minor_device_class();
        assert_eq!(code & !0xF0, 0);
        assert_eq!(code & (1 << 4) != 0, imaging.display);
        assert_eq!(code & (1 << 5) != 0, imaging.camera);
        assert_eq!(code & (1 << 6) != 0, imaging.scanner);
        assert_eq!(code & (1 << 7) != 0, imaging.printer);
    }
}
