//! Keeping a WiFi station connected: the decisions of the (re)connection loop, and the seed of
//! the network stack.

use vstd::prelude::*;

verus! {

/// How long to back off after losing or failing to establish the connection, in milliseconds.
pub const RECONNECT_BACKOFF_MS: u64 = 5000;

/// What the connection loop asks the WiFi driver to do next.
#[derive(Debug, Clone, Copy, PartialEq, Eq, Structural)]
pub enum WifiAction {
    /// Report whether the station is connected.
    ReadState,
    /// Wait until the station is disconnected.
    WaitForDisconnect,
    /// Wait the given number of milliseconds.
    Sleep(u64),
    /// Report whether the driver is started.
    QueryStarted,
    /// Configure the station (SSID and password), start the driver and scan for access points.
    StartWifi,
    /// Try to connect; report whether it worked.
    Connect,
}

/// Where the connection loop is: the action it last asked for.
#[derive(Debug, Clone, Copy, PartialEq, Eq, Structural)]
pub enum WifiPhase {
    Begin,
    ReadingState,
    WaitingForDisconnect,
    BackingOffAfterDisconnect,
    QueryingStarted,
    Starting,
    Connecting,
    BackingOffAfterFailure,
}

/// One step of the loop: from the phase and the answer to the last action (connected?,
/// started?, connect succeeded?; ignored for actions without an answer) to the next phase and
/// action.
pub open spec fn wifi_step(phase: WifiPhase, answer: bool) -> (WifiPhase, WifiAction) {
    match phase {
        WifiPhase::Begin => (WifiPhase::ReadingState, WifiAction::ReadState),
        WifiPhase::ReadingState => if answer {
            (WifiPhase::WaitingForDisconnect, WifiAction::WaitForDisconnect)
        } else {
            (WifiPhase::QueryingStarted, WifiAction::QueryStarted)
        },
        WifiPhase::WaitingForDisconnect => (
            WifiPhase::BackingOffAfterDisconnect,
            WifiAction::Sleep(RECONNECT_BACKOFF_MS),
        ),
        WifiPhase::BackingOffAfterDisconnect => (WifiPhase::QueryingStarted, WifiAction::QueryStarted),
        WifiPhase::QueryingStarted => if answer {
            (WifiPhase::Connecting, WifiAction::Connect)
        } else {
            (WifiPhase::Starting, WifiAction::StartWifi)
        },
        WifiPhase::Starting => (WifiPhase::Connecting, WifiAction::Connect),
        WifiPhase::Connecting => if answer {
            (WifiPhase::ReadingState, WifiAction::ReadState)
        } else {
            (WifiPhase::BackingOffAfterFailure, WifiAction::Sleep(RECONNECT_BACKOFF_MS))
        },
        WifiPhase::BackingOffAfterFailure => (WifiPhase::ReadingState, WifiAction::ReadState),
    }
}

/// The loop that keeps the station connected: while connected it waits for the disconnection
/// and backs off; it starts the driver when it is not started; it then connects, and backs off
/// after a failed attempt.
pub struct ConnectWifiRunner {
    phase: WifiPhase,
}

impl View for ConnectWifiRunner {
    type V = WifiPhase;

    closed spec fn view(&self) -> WifiPhase {
        self.phase
    }
}

impl ConnectWifiRunner {
    /// A loop that has not asked for anything yet.
    pub fn new() -> (r: Self)
        ensures
            r@ == WifiPhase::Begin,
    {
        ConnectWifiRunner { phase: WifiPhase::Begin }
    }

    /// The phase the loop is in.
    pub fn phase(&self) -> (r: WifiPhase)
        ensures
            r == self@,
    {
        self.phase
    }

    /// Takes the answer to the last action and returns the next action.
    pub fn next_action(&mut self, answer: bool) -> (r: WifiAction)
        ensures
            (final(self)@, r) == wifi_step(old(self)@, answer),
    {
        let (phase, action) = match self.phase {
            WifiPhase::Begin => (WifiPhase::ReadingState, WifiAction::ReadState),
            WifiPhase::ReadingState => if answer {
                (WifiPhase::WaitingForDisconnect, WifiAction::WaitForDisconnect)
            } else {
                (WifiPhase::QueryingStarted, WifiAction::QueryStarted)
            },
            WifiPhase::WaitingForDisconnect => (
                WifiPhase::BackingOffAfterDisconnect,
                WifiAction::Sleep(RECONNECT_BACKOFF_MS),
            ),
            WifiPhase::BackingOffAfterDisconnect => (
                WifiPhase::QueryingStarted,
                WifiAction::QueryStarted,
            ),
            WifiPhase::QueryingStarted => if answer {
                (WifiPhase::Connecting, WifiAction::Connect)
            } else {
                (WifiPhase::Starting, WifiAction::StartWifi)
            },
            WifiPhase::Starting => (WifiPhase::Connecting, WifiAction::Connect),
            WifiPhase::Connecting => if answer {
                (WifiPhase::ReadingState, WifiAction::ReadState)
            } else {
                (WifiPhase::BackingOffAfterFailure, WifiAction::Sleep(RECONNECT_BACKOFF_MS))
            },
            WifiPhase::BackingOffAfterFailure => (WifiPhase::ReadingState, WifiAction::ReadState),
        };
        self.phase = phase;
        action
    }
}

/// After a failed connection attempt the loop backs off for five seconds and then looks at the
/// station's state again before it tries anything else.
pub proof fn lemma_backoff_after_failure(answer: bool)
    ensures
        wifi_step(WifiPhase::Connecting, false).1 == WifiAction::Sleep(RECONNECT_BACKOFF_MS),
        wifi_step(wifi_step(WifiPhase::Connecting, false).0, answer).1 == WifiAction::ReadState,
{
}

/// While the station is connected the loop neither starts the driver nor connects: it waits for
/// the disconnection, then backs off for five seconds.
pub proof fn lemma_no_reconnect_while_connected(a1: bool, a2: bool)
    ensures
        wifi_step(WifiPhase::ReadingState, true).1 == WifiAction::WaitForDisconnect,
        wifi_step(wifi_step(WifiPhase::ReadingState, true).0, a1).1 == WifiAction::Sleep(
            RECONNECT_BACKOFF_MS,
        ),
        wifi_step(wifi_step(wifi_step(WifiPhase::ReadingState, true).0, a1).0, a2).1
            == WifiAction::QueryStarted,
{
}

/// A connection is attempted only on a started driver: right after the driver reported being
/// started, or right after starting it.
pub proof fn lemma_connect_only_when_started(phase: WifiPhase, answer: bool)
    ensures
        wifi_step(phase, answer).1 == WifiAction::Connect ==> (phase == WifiPhase::QueryingStarted
            && answer) || phase == WifiPhase::Starting,
{
}

/// From any phase, whatever the answers, the loop asks to connect or to read the station's
/// state within five steps: it never gets stuck.
pub proof fn lemma_progress(phase: WifiPhase, a1: bool, a2: bool, a3: bool, a4: bool, a5: bool)
    ensures
        ({
            let (p1, x1) = wifi_step(phase, a1);
            let (p2, x2) = wifi_step(p1, a2);
            let (p3, x3) = wifi_step(p2, a3);
            let (p4, x4) = wifi_step(p3, a4);
            let (p5, x5) = wifi_step(p4, a5);
            let live = |x: WifiAction| x == WifiAction::Connect || x == WifiAction::ReadState;
            live(x1) || live(x2) || live(x3) || live(x4) || live(x5)
        }),
{
}

/// Whether the action the loop last asked for in `phase` has an answer: the station's state,
/// whether the driver is started, or whether the connection attempt worked.
pub open spec fn expects_answer(phase: WifiPhase) -> bool {
    phase == WifiPhase::ReadingState || phase == WifiPhase::QueryingStarted || phase
        == WifiPhase::Connecting
}

/// The answer to an action without an answer is ignored: the loop goes on the same way
/// whatever it is told.
pub proof fn lemma_unanswered_actions_ignore_answer(phase: WifiPhase, a1: bool, a2: bool)
    requires
        !expects_answer(phase),
    ensures
        wifi_step(phase, a1) == wifi_step(phase, a2),
{
}

/// A fresh loop that finds the station disconnected and the driver stopped reads the state,
/// asks whether the driver is started, starts it, and then connects, whatever the answer to
/// the start.
pub proof fn lemma_first_connection(start_answer: bool)
    ensures
        ({
            let (p1, x1) = wifi_step(WifiPhase::Begin, false);
            let (p2, x2) = wifi_step(p1, false);
            let (p3, x3) = wifi_step(p2, false);
            let (p4, x4) = wifi_step(p3, start_answer);
            &&& x1 == WifiAction::ReadState
            &&& x2 == WifiAction::QueryStarted
            &&& x3 == WifiAction::StartWifi
            &&& x4 == WifiAction::Connect
        }),
{
}

/// Right after starting the driver the loop connects, whatever the start answered.
pub proof fn lemma_connect_after_start(answer: bool)
    ensures
        wifi_step(WifiPhase::Starting, answer) == (WifiPhase::Connecting, WifiAction::Connect),
{
}

/// The seed of the network stack from two random 32-bit words: the first one is the high half.
pub open spec fn seed_of(hi: u32, lo: u32) -> int {
    hi * 0x1_0000_0000 + lo
}

/// Combines two random words into the 64-bit seed of the network stack.
pub fn network_seed(hi: u32, lo: u32) -> (r: u64)
    ensures
        r == seed_of(hi, lo),
{
    let r: u64 = (hi as u64) << 32 | lo as u64;
    assert(((hi as u64) << 32u64 | lo as u64) == (hi as u64) * 0x1_0000_0000u64 + lo as u64)
        by (bit_vector);
    r
}

/// Distinct pairs of random words give distinct seeds.
pub proof fn lemma_seed_injective(h1: u32, l1: u32, h2: u32, l2: u32)
    requires
        seed_of(h1, l1) == seed_of(h2, l2),
    ensures
        h1 == h2 && l1 == l2,
{
    if h1 < h2 {
        assert(seed_of(h1, l1) < seed_of(h2, l2));
    } else if h2 < h1 {
        assert(seed_of(h2, l2) < seed_of(h1, l1));
    }
}

} // verus!
