use vstd::prelude::*;

verus! {

/// The station configuration of embedded_svc, handed to the driver unopened.
#[verifier::external_type_specification]
#[verifier::external_body]
pub struct ExWifiConfiguration(embedded_svc::wifi::Configuration);

/// Bytes that the station configuration holds for a network name.
pub const SSID_CAPACITY: usize = 32;

/// Bytes that the station configuration holds for a pre-shared key.
pub const PSK_CAPACITY: usize = 64;

/// Longest pre-shared key accepted, in bytes: a passphrase has at most 63.
pub const PSK_MAX_LEN: usize = 63;

/// A credential that does not fit the station configuration.
#[derive(Debug, Clone, Copy, PartialEq, Eq, Structural)]
pub enum ConfigError {
    SsidTooLong,
    PasswordTooLong,
}

/// The operation of the connection sequence that failed.
#[derive(Debug, Clone, Copy, PartialEq, Eq, Structural)]
pub enum Stage {
    Configure,
    Start,
    Associate,
    AcquireAddress,
}

/// Why no connection came: the credentials were refused before any network
/// operation, or an operation failed at a stage with the driver's error code.
#[derive(Debug, Clone, Copy, PartialEq, Eq, Structural)]
pub enum ConnectError {
    Config(ConfigError),
    Link(Stage, i32),
}

/// Where a station session stands. The operation named by each pending
/// phase is in flight; its outcome moves the session on.
#[derive(Debug, Clone, Copy, PartialEq, Eq, Structural)]
pub enum WifiPhase {
    Configuring,
    Starting,
    Associating,
    AwaitingAddress,
    AddressAcquired,
    Failed,
}

/// What the driver is asked to do next.
#[derive(Debug, Clone, Copy, PartialEq, Eq, Structural)]
pub enum WifiStep {
    Start,
    Connect,
    WaitNetifUp,
    Ready,
    Abort(ConnectError),
}

/// The credentials fit the station configuration's fields.
pub open spec fn fits(ssid: &str, password: &str) -> bool {
    ssid.len() <= SSID_CAPACITY && password.len() <= PSK_CAPACITY
}

/// The credentials are within the accepted lengths.
pub open spec fn acceptable(ssid: &str, password: &str) -> bool {
    ssid.len() <= SSID_CAPACITY && password.len() <= PSK_MAX_LEN
}

pub open spec fn is_pending(p: WifiPhase) -> bool {
    !(p is AddressAcquired || p is Failed)
}

/// The stage whose operation is in flight in a pending phase.
pub open spec fn stage_of(p: WifiPhase) -> Stage {
    match p {
        WifiPhase::Configuring => Stage::Configure,
        WifiPhase::Starting => Stage::Start,
        WifiPhase::Associating => Stage::Associate,
        _ => Stage::AcquireAddress,
    }
}

/// One move of the sequence: the phase after the outcome, and the next step.
pub open spec fn transition(p: WifiPhase, outcome: Result<(), i32>) -> (WifiPhase, WifiStep) {
    match outcome {
        Err(code) => (WifiPhase::Failed, WifiStep::Abort(ConnectError::Link(stage_of(p), code))),
        Ok(_) => match p {
            WifiPhase::Configuring => (WifiPhase::Starting, WifiStep::Start),
            WifiPhase::Starting => (WifiPhase::Associating, WifiStep::Connect),
            WifiPhase::Associating => (WifiPhase::AwaitingAddress, WifiStep::WaitNetifUp),
            _ => (WifiPhase::AddressAcquired, WifiStep::Ready),
        },
    }
}

/// The phase reached from `p` after the given outcomes; a settled phase
/// takes no further outcome.
pub open spec fn run(p: WifiPhase, outcomes: Seq<Result<(), i32>>) -> WifiPhase
    decreases outcomes.len(),
{
    if outcomes.len() == 0 || !is_pending(p) {
        p
    } else {
        run(transition(p, outcomes[0]).0, outcomes.drop_first())
    }
}

/// A session reports `Ready` only from the last operation, once it
/// succeeded, and is then addressed; a failed operation settles the session
/// with its stage and the driver's error; and a session that starts
/// configuring ends up addressed exactly when its first four operations all
/// succeed.
pub proof fn lemma_ready_only_when_addressed(
    p: WifiPhase,
    outcome: Result<(), i32>,
    outcomes: Seq<Result<(), i32>>,
)
    requires
        is_pending(p),
    ensures
        transition(p, outcome).1 is Ready <==> (p == WifiPhase::AwaitingAddress && outcome is Ok),
        transition(p, outcome).1 is Ready ==> transition(p, outcome).0
            == WifiPhase::AddressAcquired,
        outcome matches Err(code) ==> transition(p, outcome) == (
            WifiPhase::Failed,
            WifiStep::Abort(ConnectError::Link(stage_of(p), code)),
        ),
        run(WifiPhase::Configuring, outcomes) == WifiPhase::AddressAcquired <==> (outcomes.len()
            >= 4 && outcomes[0] is Ok && outcomes[1] is Ok && outcomes[2] is Ok && outcomes[3] is Ok),
{
    let c = WifiPhase::Configuring;
    if outcomes.len() > 0 {
        let o1 = outcomes.drop_first();
        lemma_settled_stays(WifiPhase::Failed, o1);
        assert(run(c, outcomes) == run(transition(c, outcomes[0]).0, o1));
        if o1.len() > 0 {
            let o2 = o1.drop_first();
            assert(o1[0] == outcomes[1]);
            lemma_settled_stays(WifiPhase::Failed, o2);
            assert(run(WifiPhase::Starting, o1) == run(
                transition(WifiPhase::Starting, o1[0]).0,
                o2,
            ));
            if o2.len() > 0 {
                let o3 = o2.drop_first();
                assert(o2[0] == outcomes[2]);
                lemma_settled_stays(WifiPhase::Failed, o3);
                assert(run(WifiPhase::Associating, o2) == run(
                    transition(WifiPhase::Associating, o2[0]).0,
                    o3,
                ));
                if o3.len() > 0 {
                    let o4 = o3.drop_first();
                    assert(o3[0] == outcomes[3]);
                    lemma_settled_stays(WifiPhase::Failed, o4);
                    lemma_settled_stays(WifiPhase::AddressAcquired, o4);
                    assert(run(WifiPhase::AwaitingAddress, o3) == run(
                        transition(WifiPhase::AwaitingAddress, o3[0]).0,
                        o4,
                    ));
                }
            }
        }
    }
}

/// A settled phase takes no further outcome.
pub proof fn lemma_settled_stays(p: WifiPhase, outcomes: Seq<Result<(), i32>>)
    requires
        !is_pending(p),
    ensures
        run(p, outcomes) == p,
{
}

/// Relies on embedded_svc::wifi::ClientConfiguration, whose `ssid` and
/// `password` are heapless strings of 32 and 64 bytes: heapless's
/// `TryFrom<&str>` succeeds exactly when the text has no more bytes than that.
#[verifier::external_body]
fn client_configuration(ssid: &str, password: &str) -> (r: Option<embedded_svc::wifi::Configuration>)
    ensures
        r is Some <==> fits(ssid, password),
{
    let ssid = ssid.try_into().ok()?;
    let password = password.try_into().ok()?;
    Some(embedded_svc::wifi::Configuration::Client(embedded_svc::wifi::ClientConfiguration {
        ssid,
        password,
        ..Default::default()
    }))
}

/// A station session on its way to an address.
pub struct WifiSession {
    pub phase: WifiPhase,
}

/// Checks the credentials and builds the station configuration. On success
/// the session stands in `Configuring`: the caller applies the configuration
/// and reports the outcome to `advance`. Oversized credentials give no session
/// and no configuration, so nothing reaches the network. The network name
/// is judged first.
pub fn connect_wifi(ssid: &str, password: &str) -> (r: Result<
    (WifiSession, embedded_svc::wifi::Configuration),
    ConnectError,
>)
    ensures
        r is Ok <==> acceptable(ssid, password),
        r matches Ok(v) ==> v.0.phase == WifiPhase::Configuring,
        r == Err::<(WifiSession, embedded_svc::wifi::Configuration), ConnectError>(
            ConnectError::Config(ConfigError::SsidTooLong),
        ) <==> ssid.len() > SSID_CAPACITY,
        r == Err::<(WifiSession, embedded_svc::wifi::Configuration), ConnectError>(
            ConnectError::Config(ConfigError::PasswordTooLong),
        ) <==> (ssid.len() <= SSID_CAPACITY && password.len() > PSK_MAX_LEN),
{
    if ssid.len() <= SSID_CAPACITY && password.len() > PSK_MAX_LEN {
        return Err(ConnectError::Config(ConfigError::PasswordTooLong));
    }
    match client_configuration(ssid, password) {
        Some(c) => Ok((WifiSession { phase: WifiPhase::Configuring }, c)),
        None => {
            if ssid.len() > SSID_CAPACITY {
                Err(ConnectError::Config(ConfigError::SsidTooLong))
            } else {
                Err(ConnectError::Config(ConfigError::PasswordTooLong))
            }
        },
    }
}

impl WifiSession {
    pub fn is_pending(&self) -> (r: bool)
        ensures
            r == is_pending(self.phase),
    {
        !matches!(self.phase, WifiPhase::AddressAcquired | WifiPhase::Failed)
    }

    /// Takes the outcome of the operation in flight, `Err` with the driver's
    /// error code when it failed, and names the next one.
    pub fn advance(&mut self, outcome: Result<(), i32>) -> (r: WifiStep)
        requires
            is_pending(old(self).phase),
        ensures
            (final(self).phase, r) == transition(old(self).phase, outcome),
    {
        let (p, s) = if let Err(code) = outcome {
            let stage = match self.phase {
                WifiPhase::Configuring => Stage::Configure,
                WifiPhase::Starting => Stage::Start,
                WifiPhase::Associating => Stage::Associate,
                _ => Stage::AcquireAddress,
            };
            (WifiPhase::Failed, WifiStep::Abort(ConnectError::Link(stage, code)))
        } else {
            match self.phase {
                WifiPhase::Configuring => (WifiPhase::Starting, WifiStep::Start),
                WifiPhase::Starting => (WifiPhase::Associating, WifiStep::Connect),
                WifiPhase::Associating => (WifiPhase::AwaitingAddress, WifiStep::WaitNetifUp),
                _ => (WifiPhase::AddressAcquired, WifiStep::Ready),
            }
        };
        self.phase = p;
        s
    }
}

} // verus!
