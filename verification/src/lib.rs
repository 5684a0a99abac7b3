//! Verified decision logic of the WS63 Wi-Fi and BLE/SLE starter firmware.
pub mod bytes;
pub mod clock;
pub mod dhcp;
pub mod ipv4_text;
pub mod radio_profile;
pub mod radio_starter;
pub mod resource_report;
pub mod station;
pub mod wait;
pub mod wifi_bringup;
pub mod wifi_config;
