//! The BLE/SLE radio profiles the starter can be built for, and the first
//! typed operation each profile starts.
use vstd::prelude::*;
use hisi_rf_core::ble::{
    AdvertisingChannels, AdvertisingConfig, AdvertisingInterval, AdvertisingPayload,
    AdvertisingTiming, ScanConfig as BleScanConfig, ScanInterval, ScanMode, ScanTiming,
};
use hisi_rf_core::sle::{
    AnnounceChannels, AnnounceConfig, AnnounceInterval, AnnouncePayload, AnnounceTiming,
    SeekConfig, SeekInterval, SeekTiming,
};

verus! {

#[verifier::external_type_specification]
#[verifier::external_body]
pub struct ExAdvertisingInterval(AdvertisingInterval);

#[verifier::external_type_specification]
#[verifier::external_body]
pub struct ExAdvertisingTiming(AdvertisingTiming);

#[verifier::external_type_specification]
#[verifier::external_body]
pub struct ExAdvertisingChannels(AdvertisingChannels);

#[verifier::external_type_specification]
#[verifier::external_body]
pub struct ExAdvertisingPayload(AdvertisingPayload);

#[verifier::external_type_specification]
#[verifier::external_body]
pub struct ExAdvertisingConfig(AdvertisingConfig);

#[verifier::external_type_specification]
#[verifier::external_body]
pub struct ExScanInterval(ScanInterval);

#[verifier::external_type_specification]
#[verifier::external_body]
pub struct ExScanTiming(ScanTiming);

#[verifier::external_type_specification]
#[verifier::external_body]
pub struct ExScanMode(ScanMode);

#[verifier::external_type_specification]
#[verifier::external_body]
pub struct ExBleScanConfig(BleScanConfig);

#[verifier::external_type_specification]
#[verifier::external_body]
pub struct ExAnnounceInterval(AnnounceInterval);

#[verifier::external_type_specification]
#[verifier::external_body]
pub struct ExAnnounceTiming(AnnounceTiming);

#[verifier::external_type_specification]
#[verifier::external_body]
pub struct ExAnnounceChannels(AnnounceChannels);

#[verifier::external_type_specification]
#[verifier::external_body]
pub struct ExAnnouncePayload(AnnouncePayload);

#[verifier::external_type_specification]
#[verifier::external_body]
pub struct ExAnnounceConfig(AnnounceConfig);

#[verifier::external_type_specification]
#[verifier::external_body]
pub struct ExSeekInterval(SeekInterval);

#[verifier::external_type_specification]
#[verifier::external_body]
pub struct ExSeekTiming(SeekTiming);

#[verifier::external_type_specification]
#[verifier::external_body]
pub struct ExSeekConfig(SeekConfig);

/// The result of `ble::AdvertisingInterval::try_from_units(units)`.
pub uninterp spec fn advertising_interval_from(units: u16) -> Option<AdvertisingInterval>;

/// The result of `ble::AdvertisingTiming::try_new(minimum, maximum)`.
pub uninterp spec fn advertising_timing_from(minimum: AdvertisingInterval, maximum: AdvertisingInterval) -> Option<AdvertisingTiming>;

/// The result of `ble::AdvertisingChannels::try_from_bits(bits)`; bit 0, 1
/// and 2 select channels 37, 38 and 39.
pub uninterp spec fn advertising_channels_from(bits: u8) -> Option<AdvertisingChannels>;

/// The result of `ble::AdvertisingPayload::try_from_slice(value)`: the
/// payload holding exactly these bytes, when they fit.
pub uninterp spec fn advertising_payload_from(value: Seq<u8>) -> Option<AdvertisingPayload>;

/// The result of `ble::AdvertisingConfig::new(timing, channels, payload)`.
pub uninterp spec fn advertising_config_from(timing: AdvertisingTiming, channels: AdvertisingChannels, payload: AdvertisingPayload) -> AdvertisingConfig;

/// The result of `ble::ScanInterval::try_from_units(units)`.
pub uninterp spec fn scan_interval_from(units: u16) -> Option<ScanInterval>;

/// The result of `ble::ScanTiming::try_new(interval, window)`.
pub uninterp spec fn scan_timing_from(interval: ScanInterval, window: ScanInterval) -> Option<ScanTiming>;

/// The scan mode `ble::ScanMode::Active` when `active`, else
/// `ble::ScanMode::Passive`.
pub uninterp spec fn scan_mode_from(active: bool) -> ScanMode;

/// The result of `ble::ScanConfig::new(timing, mode, filter_duplicates)`.
pub uninterp spec fn ble_scan_config_from(timing: ScanTiming, mode: ScanMode, filter_duplicates: bool) -> BleScanConfig;

/// The result of `sle::AnnounceInterval::try_from_units(units)`.
pub uninterp spec fn announce_interval_from(units: u32) -> Option<AnnounceInterval>;

/// The result of `sle::AnnounceTiming::try_new(minimum, maximum)`.
pub uninterp spec fn announce_timing_from(minimum: AnnounceInterval, maximum: AnnounceInterval) -> Option<AnnounceTiming>;

/// The result of `sle::AnnounceChannels::try_from_bits(bits)`.
pub uninterp spec fn announce_channels_from(bits: u8) -> Option<AnnounceChannels>;

/// The result of `sle::AnnouncePayload::try_from_slice(value)`: the payload
/// holding exactly these bytes, when they fit.
pub uninterp spec fn announce_payload_from(value: Seq<u8>) -> Option<AnnouncePayload>;

/// The result of `sle::AnnounceConfig::new(timing, channels, data,
/// seek_response)`.
pub uninterp spec fn announce_config_from(timing: AnnounceTiming, channels: AnnounceChannels, data: AnnouncePayload, seek_response: AnnouncePayload) -> AnnounceConfig;

/// The result of `sle::SeekInterval::try_from_units(units)`.
pub uninterp spec fn seek_interval_from(units: u16) -> Option<SeekInterval>;

/// The result of `sle::SeekTiming::try_new(interval, window)`.
pub uninterp spec fn seek_timing_from(interval: SeekInterval, window: SeekInterval) -> Option<SeekTiming>;

/// The result of `sle::SeekConfig::new(timing, filter_duplicates)`.
pub uninterp spec fn seek_config_from(timing: SeekTiming, filter_duplicates: bool) -> SeekConfig;

/// Calls `AdvertisingInterval::try_from_units`, which accepts exactly the
/// units 0x20 through 0x4000 and depends on them alone.
#[verifier::external_body]
fn advertising_interval(units: u16) -> (r: Option<AdvertisingInterval>)
    ensures
        r == advertising_interval_from(units),
        r is Some <==> 0x20 <= units <= 0x4000,
{
    AdvertisingInterval::try_from_units(units)
}

/// Calls `AdvertisingTiming::try_new`, which fails only when the minimum
/// exceeds the maximum, so equal intervals always succeed.
#[verifier::external_body]
fn advertising_timing(minimum: AdvertisingInterval, maximum: AdvertisingInterval) -> (r: Option<AdvertisingTiming>)
    ensures
        r == advertising_timing_from(minimum, maximum),
        minimum == maximum ==> r is Some,
{
    AdvertisingTiming::try_new(minimum, maximum)
}

/// Calls `AdvertisingChannels::try_from_bits`, which accepts exactly the
/// non-empty three-bit maps (1 through 7).
#[verifier::external_body]
fn advertising_channels(bits: u8) -> (r: Option<AdvertisingChannels>)
    ensures
        r == advertising_channels_from(bits),
        r is Some <==> 1 <= bits <= 7,
{
    AdvertisingChannels::try_from_bits(bits)
}

/// Calls `AdvertisingPayload::try_from_slice`, which accepts exactly the
/// payloads of at most 31 bytes.
#[verifier::external_body]
fn advertising_payload(value: &[u8]) -> (r: Option<AdvertisingPayload>)
    ensures
        r == advertising_payload_from(value@),
        r is Some <==> value@.len() <= 31,
{
    AdvertisingPayload::try_from_slice(value)
}

/// Calls `AdvertisingConfig::new`.
#[verifier::external_body]
fn advertising_config(timing: AdvertisingTiming, channels: AdvertisingChannels, payload: AdvertisingPayload) -> (r: AdvertisingConfig)
    ensures
        r == advertising_config_from(timing, channels, payload),
{
    AdvertisingConfig::new(timing, channels, payload)
}

/// Calls `ble::ScanInterval::try_from_units`, which accepts exactly the units
/// 0x0004 through 0x4000.
#[verifier::external_body]
fn scan_interval(units: u16) -> (r: Option<ScanInterval>)
    ensures
        r == scan_interval_from(units),
        r is Some <==> 0x0004 <= units <= 0x4000,
{
    ScanInterval::try_from_units(units)
}

/// Calls `ble::ScanTiming::try_new`, which fails only when the window exceeds
/// the interval, so equal values always succeed.
#[verifier::external_body]
fn scan_timing(interval: ScanInterval, window: ScanInterval) -> (r: Option<ScanTiming>)
    ensures
        r == scan_timing_from(interval, window),
        interval == window ==> r is Some,
{
    ScanTiming::try_new(interval, window)
}

/// Picks the `ble::ScanMode` variant: `Active` or `Passive`.
#[verifier::external_body]
fn scan_mode(active: bool) -> (r: ScanMode)
    ensures
        r == scan_mode_from(active),
{
    if active {
        ScanMode::Active
    } else {
        ScanMode::Passive
    }
}

/// Calls `ble::ScanConfig::new`.
#[verifier::external_body]
fn ble_scan_config(timing: ScanTiming, mode: ScanMode, filter_duplicates: bool) -> (r: BleScanConfig)
    ensures
        r == ble_scan_config_from(timing, mode, filter_duplicates),
{
    BleScanConfig::new(timing, mode, filter_duplicates)
}

/// Calls `sle::AnnounceInterval::try_from_units`, which accepts exactly the
/// units 0x20 through 0xff_ffff.
#[verifier::external_body]
fn announce_interval(units: u32) -> (r: Option<AnnounceInterval>)
    ensures
        r == announce_interval_from(units),
        r is Some <==> 0x20 <= units <= 0x00ff_ffff,
{
    AnnounceInterval::try_from_units(units)
}

/// Calls `sle::AnnounceTiming::try_new`, which fails only when the minimum
/// exceeds the maximum, so equal intervals always succeed.
#[verifier::external_body]
fn announce_timing(minimum: AnnounceInterval, maximum: AnnounceInterval) -> (r: Option<AnnounceTiming>)
    ensures
        r == announce_timing_from(minimum, maximum),
        minimum == maximum ==> r is Some,
{
    AnnounceTiming::try_new(minimum, maximum)
}

/// Calls `sle::AnnounceChannels::try_from_bits`, which accepts exactly the
/// non-empty three-bit maps (1 through 7).
#[verifier::external_body]
fn announce_channels(bits: u8) -> (r: Option<AnnounceChannels>)
    ensures
        r == announce_channels_from(bits),
        r is Some <==> 1 <= bits <= 7,
{
    AnnounceChannels::try_from_bits(bits)
}

/// Calls `sle::AnnouncePayload::try_from_slice`, which accepts exactly the
/// payloads of at most 64 bytes.
#[verifier::external_body]
fn announce_payload(value: &[u8]) -> (r: Option<AnnouncePayload>)
    ensures
        r == announce_payload_from(value@),
        r is Some <==> value@.len() <= 64,
{
    AnnouncePayload::try_from_slice(value)
}

/// Calls `sle::AnnounceConfig::new`.
#[verifier::external_body]
fn announce_config(timing: AnnounceTiming, channels: AnnounceChannels, data: AnnouncePayload, seek_response: AnnouncePayload) -> (r: AnnounceConfig)
    ensures
        r == announce_config_from(timing, channels, data, seek_response),
{
    AnnounceConfig::new(timing, channels, data, seek_response)
}

/// Calls `sle::SeekInterval::try_from_units`, which accepts exactly the units
/// from 0x14 up.
#[verifier::external_body]
fn seek_interval(units: u16) -> (r: Option<SeekInterval>)
    ensures
        r == seek_interval_from(units),
        r is Some <==> units >= 0x14,
{
    SeekInterval::try_from_units(units)
}

/// Calls `sle::SeekTiming::try_new`, which fails only when the window exceeds
/// the interval, so equal values always succeed.
#[verifier::external_body]
fn seek_timing(interval: SeekInterval, window: SeekInterval) -> (r: Option<SeekTiming>)
    ensures
        r == seek_timing_from(interval, window),
        interval == window ==> r is Some,
{
    SeekTiming::try_new(interval, window)
}

/// Calls `sle::SeekConfig::new`.
#[verifier::external_body]
fn seek_config(timing: SeekTiming, filter_duplicates: bool) -> (r: SeekConfig)
    ensures
        r == seek_config_from(timing, filter_duplicates),
{
    SeekConfig::new(timing, filter_duplicates)
}

/// A named BLE/SLE composition the starter can be built for.
#[derive(Clone, Copy, Debug, PartialEq, Eq, Structural)]
pub enum RadioProfile {
    BlePeripheral,
    BleCentral,
    BleDualRole,
    SleAnnounce,
    SleSeek,
    SleSsap,
}

/// The radio family whose controller completes the starter operation.
#[derive(Clone, Copy, Debug, PartialEq, Eq, Structural)]
pub enum RadioFamily {
    Ble,
    Sle,
}

/// The first typed operation a profile starts.
#[derive(Clone, Copy, Debug, PartialEq, Eq, Structural)]
pub enum StarterOperation {
    BleAdvertising,
    BlePassiveScan,
    SleAnnounce,
    SleSeek,
}

/// The operation each profile starts: advertising for the peripheral and
/// dual-role profiles, a passive scan for the central, announce for the
/// announce and SSAP profiles, seek for the seek profile.
pub open spec fn profile_operation(profile: RadioProfile) -> StarterOperation {
    match profile {
        RadioProfile::BlePeripheral => StarterOperation::BleAdvertising,
        RadioProfile::BleDualRole => StarterOperation::BleAdvertising,
        RadioProfile::BleCentral => StarterOperation::BlePassiveScan,
        RadioProfile::SleAnnounce => StarterOperation::SleAnnounce,
        RadioProfile::SleSsap => StarterOperation::SleAnnounce,
        RadioProfile::SleSeek => StarterOperation::SleSeek,
    }
}

/// The family of each profile.
pub open spec fn profile_family(profile: RadioProfile) -> RadioFamily {
    match profile {
        RadioProfile::BlePeripheral | RadioProfile::BleCentral | RadioProfile::BleDualRole => RadioFamily::Ble,
        _ => RadioFamily::Sle,
    }
}

/// Controller interval units of the starter operation: 160 BLE units of
/// 0.625 ms, or 800 SLE units of 125 us.
pub open spec fn interval_units(profile: RadioProfile) -> nat {
    match profile_family(profile) {
        RadioFamily::Ble => 160,
        RadioFamily::Sle => 800,
    }
}

/// Length of one controller interval unit, in nanoseconds.
pub open spec fn unit_nanos(family: RadioFamily) -> nat {
    match family {
        RadioFamily::Ble => 625_000,
        RadioFamily::Sle => 125_000,
    }
}

/// Law: every profile's starter request repeats every 100 ms. The request
/// `starter_request` builds for a profile (`profile_request`) takes its
/// interval from `interval_units`, in the family's controller units, and
/// that many units last 100 ms.
pub proof fn lemma_starter_interval_is_100_ms(profile: RadioProfile)
    ensures
        interval_units(profile) * unit_nanos(profile_family(profile)) == 100_000_000,
        profile_family(profile) == RadioFamily::Ble ==> (profile_request(profile)
            == advertising_request(interval_units(profile) as u16) || profile_request(profile)
            == passive_scan_request(interval_units(profile) as u16)),
        profile_family(profile) == RadioFamily::Sle ==> (profile_request(profile)
            == announce_request(interval_units(profile) as u32) || profile_request(profile)
            == seek_request(interval_units(profile) as u16)),
{
}

/// The name of each profile.
pub open spec fn profile_name(profile: RadioProfile) -> &'static str {
    match profile {
        RadioProfile::BlePeripheral => "ble-peripheral",
        RadioProfile::BleCentral => "ble-central",
        RadioProfile::BleDualRole => "ble-dual-role",
        RadioProfile::SleAnnounce => "sle-announce",
        RadioProfile::SleSeek => "sle-seek",
        RadioProfile::SleSsap => "sle-ssap",
    }
}

impl RadioProfile {
    /// The profile's name, as it appears in the status markers.
    pub fn name(&self) -> (s: &'static str)
        ensures
            s@ == profile_name(*self)@,
    {
        match self {
            RadioProfile::BlePeripheral => "ble-peripheral",
            RadioProfile::BleCentral => "ble-central",
            RadioProfile::BleDualRole => "ble-dual-role",
            RadioProfile::SleAnnounce => "sle-announce",
            RadioProfile::SleSeek => "sle-seek",
            RadioProfile::SleSsap => "sle-ssap",
        }
    }

    /// The family whose controller reports the starter operation's completion.
    pub fn family(&self) -> (f: RadioFamily)
        ensures
            f == profile_family(*self),
    {
        match self {
            RadioProfile::BlePeripheral | RadioProfile::BleCentral | RadioProfile::BleDualRole => RadioFamily::Ble,
            _ => RadioFamily::Sle,
        }
    }

    /// The operation the profile starts.
    pub fn operation(&self) -> (op: StarterOperation)
        ensures
            op == profile_operation(*self),
    {
        match self {
            RadioProfile::BlePeripheral => StarterOperation::BleAdvertising,
            RadioProfile::BleDualRole => StarterOperation::BleAdvertising,
            RadioProfile::BleCentral => StarterOperation::BlePassiveScan,
            RadioProfile::SleAnnounce => StarterOperation::SleAnnounce,
            RadioProfile::SleSsap => StarterOperation::SleAnnounce,
            RadioProfile::SleSeek => StarterOperation::SleSeek,
        }
    }
}

/// A typed request for the starter operation.
pub enum StarterRequest {
    Advertise(AdvertisingConfig),
    Scan(BleScanConfig),
    Announce(AnnounceConfig),
    Seek(SeekConfig),
}

/// The request variant that carries an operation.
pub open spec fn request_matches(request: StarterRequest, op: StarterOperation) -> bool {
    match op {
        StarterOperation::BleAdvertising => request is Advertise,
        StarterOperation::BlePassiveScan => request is Scan,
        StarterOperation::SleAnnounce => request is Announce,
        StarterOperation::SleSeek => request is Seek,
    }
}

/// Legacy advertising payload: flags (LE general discoverable, BR/EDR not
/// supported) and the complete local name `HISI-RS`.
pub const ADVERTISING_PAYLOAD: [u8; 12] = [0x02, 0x01, 0x06, 0x08, 0x09, 0x48, 0x49, 0x53, 0x49, 0x2d, 0x52, 0x53];

/// SLE announce data: `HISI-RS`.
pub const ANNOUNCE_DATA: [u8; 7] = [0x48, 0x49, 0x53, 0x49, 0x2d, 0x52, 0x53];

/// SLE seek-response data: `hisi-rf`.
pub const SEEK_RESPONSE_DATA: [u8; 7] = [0x68, 0x69, 0x73, 0x69, 0x2d, 0x72, 0x66];

/// Bit map of all three channels (37, 38, 39 on BLE; all primary channels
/// on SLE).
pub const ALL_CHANNELS: u8 = 0x07;

/// The advertising request: equal minimum and maximum intervals of
/// `units`, all channels, and the flags + `HISI-RS` payload.
pub open spec fn advertising_request(units: u16) -> StarterRequest {
    let interval = advertising_interval_from(units).unwrap();
    StarterRequest::Advertise(advertising_config_from(
        advertising_timing_from(interval, interval).unwrap(),
        advertising_channels_from(ALL_CHANNELS).unwrap(),
        advertising_payload_from(ADVERTISING_PAYLOAD@).unwrap(),
    ))
}

/// The passive scan request: equal interval and window of `units`, passive
/// mode, duplicate reports not filtered.
pub open spec fn passive_scan_request(units: u16) -> StarterRequest {
    let interval = scan_interval_from(units).unwrap();
    StarterRequest::Scan(ble_scan_config_from(
        scan_timing_from(interval, interval).unwrap(),
        scan_mode_from(false),
        false,
    ))
}

/// The announce request: equal minimum and maximum intervals of `units`, all
/// channels, announce data `HISI-RS` and seek-response data `hisi-rf`.
pub open spec fn announce_request(units: u32) -> StarterRequest {
    let interval = announce_interval_from(units).unwrap();
    StarterRequest::Announce(announce_config_from(
        announce_timing_from(interval, interval).unwrap(),
        announce_channels_from(ALL_CHANNELS).unwrap(),
        announce_payload_from(ANNOUNCE_DATA@).unwrap(),
        announce_payload_from(SEEK_RESPONSE_DATA@).unwrap(),
    ))
}

/// The seek request: equal interval and window of `units`, duplicate reports
/// not filtered.
pub open spec fn seek_request(units: u16) -> StarterRequest {
    let interval = seek_interval_from(units).unwrap();
    StarterRequest::Seek(seek_config_from(seek_timing_from(interval, interval).unwrap(), false))
}

/// The starter request of each profile, with the profile's interval units.
pub open spec fn profile_request(profile: RadioProfile) -> StarterRequest {
    match profile_operation(profile) {
        StarterOperation::BleAdvertising => advertising_request(interval_units(profile) as u16),
        StarterOperation::BlePassiveScan => passive_scan_request(interval_units(profile) as u16),
        StarterOperation::SleAnnounce => announce_request(interval_units(profile) as u32),
        StarterOperation::SleSeek => seek_request(interval_units(profile) as u16),
    }
}

/// Builds the starter request of a profile: a 100 ms advertising or scan
/// interval on BLE (160 units of 0.625 ms) or a 100 ms announce or seek
/// interval on SLE (800 units of 125 us), with equal minimum and maximum
/// (or interval and window), all channels, and the starter's payloads. Every
/// validation succeeds, so building never fails.
pub fn starter_request(profile: RadioProfile) -> (r: StarterRequest)
    ensures
        r == profile_request(profile),
        request_matches(r, profile_operation(profile)),
{
    match profile.operation() {
        StarterOperation::BleAdvertising => {
            let interval = advertising_interval(160).unwrap();
            let timing = advertising_timing(interval, interval).unwrap();
            let channels = advertising_channels(ALL_CHANNELS).unwrap();
            let payload = advertising_payload(&ADVERTISING_PAYLOAD).unwrap();
            StarterRequest::Advertise(advertising_config(timing, channels, payload))
        },
        StarterOperation::BlePassiveScan => {
            let interval = scan_interval(160).unwrap();
            let timing = scan_timing(interval, interval).unwrap();
            StarterRequest::Scan(ble_scan_config(timing, scan_mode(false), false))
        },
        StarterOperation::SleAnnounce => {
            let interval = announce_interval(800).unwrap();
            let timing = announce_timing(interval, interval).unwrap();
            let channels = announce_channels(ALL_CHANNELS).unwrap();
            let data = announce_payload(&ANNOUNCE_DATA).unwrap();
            let seek_response = announce_payload(&SEEK_RESPONSE_DATA).unwrap();
            StarterRequest::Announce(announce_config(timing, channels, data, seek_response))
        },
        StarterOperation::SleSeek => {
            let interval = seek_interval(800).unwrap();
            let timing = seek_timing(interval, interval).unwrap();
            StarterRequest::Seek(seek_config(timing, false))
        },
    }
}


/// Law: no starter request filters duplicate reports, and every request
/// uses equal minimum and maximum (or interval and window) of 160 BLE units
/// or 800 SLE units, all three channels (bit map 0x07) where the operation
/// takes channels, and the starter's payloads. Stated for every profile,
/// with the concrete values of each operation.
pub proof fn lemma_starter_request_values(profile: RadioProfile)
    ensures
        profile_operation(profile) == StarterOperation::BleAdvertising ==> profile_request(profile)
            == StarterRequest::Advertise(advertising_config_from(
            advertising_timing_from(
                advertising_interval_from(160).unwrap(),
                advertising_interval_from(160).unwrap(),
            ).unwrap(),
            advertising_channels_from(0x07).unwrap(),
            advertising_payload_from(seq![0x02u8, 0x01, 0x06, 0x08, 0x09, 0x48, 0x49, 0x53, 0x49, 0x2d, 0x52, 0x53]).unwrap(),
        )),
        profile_operation(profile) == StarterOperation::BlePassiveScan ==> profile_request(profile)
            == StarterRequest::Scan(ble_scan_config_from(
            scan_timing_from(scan_interval_from(160).unwrap(), scan_interval_from(160).unwrap()).unwrap(),
            scan_mode_from(false),
            false,
        )),
        profile_operation(profile) == StarterOperation::SleAnnounce ==> profile_request(profile)
            == StarterRequest::Announce(announce_config_from(
            announce_timing_from(announce_interval_from(800).unwrap(), announce_interval_from(800).unwrap()).unwrap(),
            announce_channels_from(0x07).unwrap(),
            announce_payload_from(seq![0x48u8, 0x49, 0x53, 0x49, 0x2d, 0x52, 0x53]).unwrap(),
            announce_payload_from(seq![0x68u8, 0x69, 0x73, 0x69, 0x2d, 0x72, 0x66]).unwrap(),
        )),
        profile_operation(profile) == StarterOperation::SleSeek ==> profile_request(profile)
            == StarterRequest::Seek(seek_config_from(
            seek_timing_from(seek_interval_from(800).unwrap(), seek_interval_from(800).unwrap()).unwrap(),
            false,
        )),
{
    assert(ADVERTISING_PAYLOAD@ =~= seq![0x02u8, 0x01, 0x06, 0x08, 0x09, 0x48, 0x49, 0x53, 0x49, 0x2d, 0x52, 0x53]);
    assert(ANNOUNCE_DATA@ =~= seq![0x48u8, 0x49, 0x53, 0x49, 0x2d, 0x52, 0x53]);
    assert(SEEK_RESPONSE_DATA@ =~= seq![0x68u8, 0x69, 0x73, 0x69, 0x2d, 0x72, 0x66]);
}

} // verus!
