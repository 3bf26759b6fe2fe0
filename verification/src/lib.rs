//! Bluetooth Class of Device values, built from typed descriptions.
//!
//! A Class of Device is a 32-bit value of three fields: the major service class in bits 13 to
//! 23, the major device class in bits 8 to 12 and the minor device class in bits 2 to 7.
//! [`make_class_of_device`] joins a [`MajorServiceClass`] with a value of one of the device
//! categories.

pub mod audio_video;
pub mod class;
pub mod computer;
pub mod field;
pub mod health;
pub mod imaging;
pub mod network;
pub mod peripheral;
pub mod phone;
pub mod raw;
pub mod service;
pub mod toy;
pub mod wearable;

pub use audio_video::AudioVideo;
pub use class::{make_class_of_device, DeviceClass, MajorDeviceClass, MinorDeviceClass};
pub use computer::Computer;
pub use health::Health;
pub use imaging::Imaging;
pub use network::LanNetworkAccessPoint;
pub use peripheral::{Peripheral, PeripheralLower, PeripheralUpper};
pub use phone::Phone;
pub use raw::{Miscellaneous, Uncategorized};
pub use service::MajorServiceClass;
pub use toy::Toy;
pub use wearable::Wearable;
