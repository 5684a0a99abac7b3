//! Choosing the access point to join and validating the credentials.
use vstd::prelude::*;
use hisi_rf_core::{OperationTimeout, Passphrase, ScanResult, StationConfig};
use crate::bytes::bytes_equal;
use crate::wifi_config::{CONNECT_OPERATION_TIMEOUT_MS, connect_operation_timeout, operation_timeout_from};

verus! {

/// An owned WPA2/WPA3-Personal passphrase of the RF facade.
#[verifier::external_type_specification]
#[verifier::external_body]
pub struct ExPassphrase(Passphrase);

/// One scan result of the RF facade.
#[verifier::external_type_specification]
#[verifier::external_body]
pub struct ExScanResult(ScanResult);

/// A validated station connection request of the RF facade.
#[verifier::external_type_specification]
#[verifier::external_body]
pub struct ExStationConfig(StationConfig);

/// What the firmware reads of one scan result: the advertised SSID bytes.
pub struct ScanEntry {
    pub ssid: Vec<u8>,
}

/// Entry `i` advertises exactly `ssid`.
pub open spec fn advertises(entries: Seq<ScanEntry>, i: int, ssid: Seq<u8>) -> bool {
    entries[i].ssid@ == ssid
}

/// Some entry advertises `ssid`.
pub open spec fn network_present(entries: Seq<ScanEntry>, ssid: Seq<u8>) -> bool {
    exists|i: int| 0 <= i < entries.len() && #[trigger] advertises(entries, i, ssid)
}

/// Entry `i` is the first entry that advertises `ssid`.
pub open spec fn first_advertiser(entries: Seq<ScanEntry>, ssid: Seq<u8>, i: int) -> bool {
    &&& 0 <= i < entries.len()
    &&& advertises(entries, i, ssid)
    &&& forall|j: int| 0 <= j < i ==> !#[trigger] advertises(entries, j, ssid)
}

/// The first scan result whose SSID is exactly `ssid`, if there is one.
pub fn select_network(results: &[ScanEntry], ssid: &[u8]) -> (r: Option<usize>)
    ensures
        r matches Some(i) ==> first_advertiser(results@, ssid@, i as int),
        r is None <==> !network_present(results@, ssid@),
{
    let mut i: usize = 0;
    while i < results.len()
        invariant
            i <= results@.len(),
            forall|j: int| 0 <= j < i ==> !#[trigger] advertises(results@, j, ssid@),
        decreases results@.len() - i,
    {
        if bytes_equal(results[i].ssid.as_slice(), ssid) {
            assert(advertises(results@, i as int, ssid@));
            return Some(i);
        }
        i = i + 1;
    }
    None
}

/// Both build-time credentials are set: the SSID and the passphrase are not
/// empty.
pub fn credentials_configured(ssid: &[u8], passphrase: &[u8]) -> (r: bool)
    ensures
        r == (ssid@.len() > 0 && passphrase@.len() > 0),
{
    ssid.len() > 0 && passphrase.len() > 0
}

/// A passphrase the facade accepts: 8 to 63 bytes, each printable ASCII
/// (space through tilde).
pub open spec fn passphrase_acceptable(bytes: Seq<u8>) -> bool {
    &&& 8 <= bytes.len() <= 63
    &&& forall|i: int| 0 <= i < bytes.len() ==> 0x20 <= #[trigger] bytes[i] <= 0x7e
}

/// The result of `Passphrase::try_from_ascii(value)`: the passphrase holding
/// exactly these bytes, when they are acceptable. The function reads nothing
/// but its argument.
pub uninterp spec fn passphrase_from(value: Seq<u8>) -> Option<Passphrase>;

/// The result of `StationConfig::wpa2_personal(&result, passphrase,
/// operation_timeout)`: a WPA2-Personal connection request for the network
/// `result` describes, when its security allows WPA2. The function reads
/// nothing but its arguments.
pub uninterp spec fn wpa2_station_from(result: ScanResult, passphrase: Passphrase, operation_timeout: OperationTimeout) -> Option<StationConfig>;

/// Calls `Passphrase::try_from_ascii`, which returns a passphrase exactly
/// when the bytes are 8 to 63 printable ASCII characters, and depends on the
/// bytes alone.
#[verifier::external_body]
fn passphrase_from_ascii(value: &[u8]) -> (r: Option<Passphrase>)
    ensures
        r == passphrase_from(value@),
        r is Some <==> passphrase_acceptable(value@),
{
    Passphrase::try_from_ascii(value)
}

/// Why the station connection could not be prepared.
#[derive(Clone, Copy, Debug, PartialEq, Eq, Structural)]
pub enum ConnectionSetupError {
    /// No scan result advertises the configured SSID.
    NetworkNotFound,
    /// The configured passphrase is not 8 to 63 printable ASCII bytes.
    InvalidPassphrase,
}

/// Prepares the station connection from a scan: picks the first result that
/// advertises `ssid`, then validates `passphrase`. Returns the chosen
/// result's index and the passphrase.
pub fn connection_plan(results: &[ScanEntry], ssid: &[u8], passphrase: &[u8]) -> (r: Result<
    (usize, Passphrase),
    ConnectionSetupError,
>)
    ensures
        r matches Ok((i, _)) ==> first_advertiser(results@, ssid@, i as int) && passphrase_acceptable(
            passphrase@,
        ),
        r matches Ok((_, p)) ==> Some(p) == passphrase_from(passphrase@),
        r matches Err(ConnectionSetupError::NetworkNotFound) <==> !network_present(results@, ssid@),
        r matches Err(ConnectionSetupError::InvalidPassphrase) <==> network_present(results@, ssid@)
            && !passphrase_acceptable(passphrase@),
{
    let index = match select_network(results, ssid) {
        Some(i) => i,
        None => return Err(ConnectionSetupError::NetworkNotFound),
    };
    match passphrase_from_ascii(passphrase) {
        Some(secret) => Ok((index, secret)),
        None => Err(ConnectionSetupError::InvalidPassphrase),
    }
}

/// Calls `StationConfig::wpa2_personal`, which builds a WPA2-Personal
/// request for the scanned network exactly when its security is
/// WPA2-Personal or WPA2/WPA3 transition, and depends on its arguments alone.
/// The security class is opaque to the library, so when it succeeds is not
/// stated.
#[verifier::external_body]
fn wpa2_station(result: &ScanResult, passphrase: Passphrase, operation_timeout: OperationTimeout) -> (r: Option<StationConfig>)
    ensures
        r == wpa2_station_from(*result, passphrase, operation_timeout),
{
    StationConfig::wpa2_personal(result, passphrase, operation_timeout)
}

/// The connection request for the chosen scan result: WPA2-Personal with the
/// given passphrase and the 60 000 ms connect timeout. `None` when the
/// network's security does not allow WPA2.
pub fn station_request(results: &[ScanResult], index: usize, passphrase: Passphrase) -> (r: Option<StationConfig>)
    requires
        index < results@.len(),
    ensures
        r == wpa2_station_from(
            results@[index as int],
            passphrase,
            operation_timeout_from(CONNECT_OPERATION_TIMEOUT_MS).unwrap(),
        ),
{
    wpa2_station(&results[index], passphrase, connect_operation_timeout())
}

} // verus!
