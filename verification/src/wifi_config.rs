//! Build-time configuration of the Wi-Fi starter: radio timeouts, scan
//! buffer size, per-operation timeouts and the application's wait deadlines.
use vstd::prelude::*;
use hisi_rf_core::{BackendTimeout, OperationTimeout, RadioConfig, WifiConfig, WorkBudget};
use crate::clock::ApplicationWaitDeadline;

verus! {

/// The radio-wide configuration type of the RF facade.
#[verifier::external_type_specification]
#[verifier::external_body]
pub struct ExRadioConfig(RadioConfig);

/// A validated backend lifecycle timeout of the RF facade.
#[verifier::external_type_specification]
#[verifier::external_body]
pub struct ExBackendTimeout(BackendTimeout);

/// A validated end-to-end protocol operation timeout of the RF facade.
#[verifier::external_type_specification]
#[verifier::external_body]
pub struct ExOperationTimeout(OperationTimeout);

/// The bound on one incremental radio-runner poll of the RF facade.
#[verifier::external_type_specification]
#[verifier::external_body]
pub struct ExWorkBudget(WorkBudget);

/// Number of scan results the firmware's scan buffer holds.
pub const SCAN_CAPACITY: usize = 16;

/// Backend initialize timeout, in milliseconds.
pub const BACKEND_INITIALIZE_TIMEOUT_MS: u32 = 30_000;

/// Backend disconnect timeout, in milliseconds.
pub const BACKEND_DISCONNECT_TIMEOUT_MS: u32 = 10_000;

/// End-to-end scan timeout enforced by the protocol backend, in milliseconds.
pub const SCAN_OPERATION_TIMEOUT_MS: u32 = 15_000;

/// End-to-end connect timeout enforced by the protocol backend, in milliseconds.
pub const CONNECT_OPERATION_TIMEOUT_MS: u32 = 60_000;

/// Most backend events one runner poll may consume.
pub const RUNNER_MAX_EVENTS: u16 = 8;

/// Most backend time one runner poll may take, in microseconds.
pub const RUNNER_MAX_TIME_US: u32 = 100_000;

/// Application wait for radio initialization, in seconds.
pub const INITIALIZE_WAIT_SECS: u64 = 35;

/// Application wait for a scan, in seconds.
pub const SCAN_WAIT_SECS: u64 = 30;

/// Application wait for a connect, in seconds.
pub const CONNECT_WAIT_SECS: u64 = 90;

/// The result of `BackendTimeout::try_from_millis(milliseconds)`. The
/// function reads nothing but its argument.
pub uninterp spec fn backend_timeout_from(milliseconds: u32) -> Option<BackendTimeout>;

/// The result of `OperationTimeout::try_from_millis(milliseconds)`. The
/// function reads nothing but its argument.
pub uninterp spec fn operation_timeout_from(milliseconds: u32) -> Option<OperationTimeout>;

/// The result of `WorkBudget::try_new(max_events, max_time_us)`. The function
/// reads nothing but its arguments.
pub uninterp spec fn work_budget_from(max_events: u16, max_time_us: u32) -> Option<WorkBudget>;

/// The facade's default `RadioConfig` with its `wifi` field replaced by a
/// `WifiConfig` holding `initialize` as the initialize timeout and
/// `disconnect` as the disconnect timeout; every other field keeps its
/// default.
pub uninterp spec fn default_radio_config_with(initialize: BackendTimeout, disconnect: BackendTimeout) -> RadioConfig;

/// Calls `BackendTimeout::try_from_millis`, which returns a timeout exactly
/// when the millisecond count is not zero, and depends on that count alone.
#[verifier::external_body]
fn backend_timeout_from_millis(milliseconds: u32) -> (r: Option<BackendTimeout>)
    ensures
        r == backend_timeout_from(milliseconds),
        r is Some <==> milliseconds != 0,
{
    BackendTimeout::try_from_millis(milliseconds)
}

/// Calls `OperationTimeout::try_from_millis`, which returns a timeout exactly
/// when the millisecond count is not zero, and depends on that count alone.
#[verifier::external_body]
fn operation_timeout_from_millis(milliseconds: u32) -> (r: Option<OperationTimeout>)
    ensures
        r == operation_timeout_from(milliseconds),
        r is Some <==> milliseconds != 0,
{
    OperationTimeout::try_from_millis(milliseconds)
}

/// Calls `WorkBudget::try_new`, which returns a budget exactly when both
/// the event count and the time are non-zero, and depends on them alone.
#[verifier::external_body]
fn work_budget(max_events: u16, max_time_us: u32) -> (r: Option<WorkBudget>)
    ensures
        r == work_budget_from(max_events, max_time_us),
        r is Some <==> (max_events != 0 && max_time_us != 0),
{
    WorkBudget::try_new(max_events, max_time_us)
}

/// Takes `RadioConfig::default()` and replaces its `wifi` field with a
/// `WifiConfig` holding the two given backend timeouts.
#[verifier::external_body]
fn radio_config_with_wifi_timeouts(initialize: BackendTimeout, disconnect: BackendTimeout) -> (r: RadioConfig)
    ensures
        r == default_radio_config_with(initialize, disconnect),
{
    let mut config = RadioConfig::default();
    config.wifi = WifiConfig { initialize_timeout: initialize, disconnect_timeout: disconnect };
    config
}

/// The firmware's radio configuration: the facade's defaults, with Wi-Fi
/// backend timeouts of 30 000 ms for initialize and 10 000 ms for disconnect.
/// Both timeouts are non-zero, so building it cannot fail.
pub fn radio_config() -> (config: RadioConfig)
    ensures
        config == default_radio_config_with(
            backend_timeout_from(BACKEND_INITIALIZE_TIMEOUT_MS).unwrap(),
            backend_timeout_from(BACKEND_DISCONNECT_TIMEOUT_MS).unwrap(),
        ),
        backend_timeout_from(BACKEND_INITIALIZE_TIMEOUT_MS) is Some,
        backend_timeout_from(BACKEND_DISCONNECT_TIMEOUT_MS) is Some,
{
    let initialize = backend_timeout_from_millis(BACKEND_INITIALIZE_TIMEOUT_MS);
    let disconnect = backend_timeout_from_millis(BACKEND_DISCONNECT_TIMEOUT_MS);
    radio_config_with_wifi_timeouts(initialize.unwrap(), disconnect.unwrap())
}

/// Law: the radio's own initialize timeout (30 000 ms, the one `radio_config`
/// builds) is shorter than the application's wait for initialization
/// (35 s), so a backend timeout surfaces as a radio error before the
/// application gives up waiting.
pub proof fn lemma_backend_timeout_precedes_wait()
    ensures
        (BACKEND_INITIALIZE_TIMEOUT_MS as int) < INITIALIZE_WAIT_SECS * 1000,
{
}

/// The runner's per-poll work budget: at most 8 events and 100 000 us,
/// both non-zero, so building it cannot fail.
pub fn runner_budget() -> (budget: WorkBudget)
    ensures
        Some(budget) == work_budget_from(RUNNER_MAX_EVENTS, RUNNER_MAX_TIME_US),
{
    work_budget(RUNNER_MAX_EVENTS, RUNNER_MAX_TIME_US).unwrap()
}

/// The end-to-end scan timeout: 15 000 ms, which is non-zero.
pub fn scan_operation_timeout() -> (timeout: OperationTimeout)
    ensures
        Some(timeout) == operation_timeout_from(SCAN_OPERATION_TIMEOUT_MS),
{
    operation_timeout_from_millis(SCAN_OPERATION_TIMEOUT_MS).unwrap()
}

/// The end-to-end connect timeout: 60 000 ms, which is non-zero.
pub fn connect_operation_timeout() -> (timeout: OperationTimeout)
    ensures
        Some(timeout) == operation_timeout_from(CONNECT_OPERATION_TIMEOUT_MS),
{
    operation_timeout_from_millis(CONNECT_OPERATION_TIMEOUT_MS).unwrap()
}

/// How long the application waits for radio initialization: 35 s.
pub fn initialize_wait_deadline() -> (d: ApplicationWaitDeadline)
    ensures
        d@ == 35_000,
{
    ApplicationWaitDeadline::from_secs(INITIALIZE_WAIT_SECS)
}

/// How long the application waits for a scan: 30 s.
pub fn scan_wait_deadline() -> (d: ApplicationWaitDeadline)
    ensures
        d@ == 30_000,
{
    ApplicationWaitDeadline::from_secs(SCAN_WAIT_SECS)
}

/// How long the application waits for a connect: 90 s.
pub fn connect_wait_deadline() -> (d: ApplicationWaitDeadline)
    ensures
        d@ == 90_000,
{
    ApplicationWaitDeadline::from_secs(CONNECT_WAIT_SECS)
}

} // verus!
