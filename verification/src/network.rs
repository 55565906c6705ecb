//! The bootstrap sequencer: from stored credentials to a connected device
//! that advertises itself.
//!
//! The sequencer performs no radio or discovery call itself. It tells its
//! caller which call to make next (an `Action`), the caller makes it and
//! reports how it went (an `Event`), and the sequencer decides what follows.
//! The calls come in one fixed order; the first one that fails ends the
//! attempt, and nothing is asked for after that.

use vstd::prelude::*;
use vstd::slice::slice_to_vec;
use vstd::utf8::{decode_utf8, encode_utf8, valid_utf8};
use crate::config::Config;
use crate::name::Name;
use crate::traits::mdns::{ServiceRecord, ServiceRecordView};
use crate::traits::wifi::{
    scan_view,
    AccessPointInfo,
    AccessPointInfoView,
    AuthMethod,
    ClientConfiguration,
    ClientConfigurationView,
    MAX_PASSWORD_BYTES,
    MAX_SSID_BYTES,
};
use crate::utf8::{decode, decoded, valid_up_to, Utf8Error};

verus! {

/// Type of the service that the device advertises.
pub const SERVICE_TYPE: &'static str = "_burptech";

/// Transport of the service that the device advertises.
pub const SERVICE_PROTOCOL: &'static str = "_tcp";

/// Port of the service that the device advertises.
pub const SERVICE_PORT: u16 = 1234;

/// Why a bootstrap attempt failed, by the subsystem that failed.
#[derive(Debug)]
pub enum NetworkError<W, M> {
    /// A stored credential is not UTF-8 text.
    Utf8Error(Utf8Error),
    /// A call on the radio failed.
    WifiError(W),
    /// A call on the discovery service failed.
    MdnsError(M),
}

/// Where a bootstrap attempt stands: which call it waits for, if any.
#[derive(Debug, Clone, Copy, PartialEq, Eq, Structural)]
pub enum Stage {
    /// Not started.
    Idle,
    /// Waits for the default client configuration to be staged.
    StagingDefaults,
    /// Waits for the radio to start.
    Starting,
    /// Waits for the scan.
    Scanning,
    /// The channel is resolved; waits for the credentials to be staged.
    StagingCredentials,
    /// Waits for the connection.
    Connecting,
    /// Waits for the interface to get its address.
    AwaitingAddress,
    /// Waits for the address to be read.
    ReadingAddress,
    /// The network is up; waits for the host name to be set.
    NamingHost,
    /// Waits for the instance name to be set.
    NamingInstance,
    /// Waits for the service to be registered.
    Advertising,
    /// Ended with success.
    Done,
    /// Ended with a failure.
    Failed,
}

/// A call that the caller is to make.
#[derive(Debug)]
pub enum Action {
    /// Stage the radio's default client configuration.
    StageDefaultConfiguration,
    /// Start the radio.
    Start,
    /// Scan for access points.
    Scan,
    /// Stage this client configuration.
    StageConfiguration(ClientConfiguration),
    /// Connect with the configuration staged last.
    Connect,
    /// Wait until the network interface has its address.
    WaitNetifUp,
    /// Read the address that the interface got.
    GetIpInfo,
    /// Set the host name of the discovery service.
    SetHostname(String),
    /// Set the instance name of the discovery service.
    SetInstanceName(String),
    /// Register this service with the discovery service.
    AddService(ServiceRecord),
}

/// An `Action` as contracts speak of it.
pub enum ActionView {
    StageDefaultConfiguration,
    Start,
    Scan,
    StageConfiguration(ClientConfigurationView),
    Connect,
    WaitNetifUp,
    GetIpInfo,
    SetHostname(Seq<char>),
    SetInstanceName(Seq<char>),
    AddService(ServiceRecordView),
}

impl View for Action {
    type V = ActionView;

    open spec fn view(&self) -> ActionView {
        match self {
            Action::StageDefaultConfiguration => ActionView::StageDefaultConfiguration,
            Action::Start => ActionView::Start,
            Action::Scan => ActionView::Scan,
            Action::StageConfiguration(configuration) => ActionView::StageConfiguration(
                configuration@,
            ),
            Action::Connect => ActionView::Connect,
            Action::WaitNetifUp => ActionView::WaitNetifUp,
            Action::GetIpInfo => ActionView::GetIpInfo,
            Action::SetHostname(name) => ActionView::SetHostname(name@),
            Action::SetInstanceName(name) => ActionView::SetInstanceName(name@),
            Action::AddService(service) => ActionView::AddService(service@),
        }
    }
}

/// How the call that was asked for last went.
#[derive(Debug)]
pub enum Event<W, M> {
    /// The call succeeded; it was no scan.
    Succeeded,
    /// The scan succeeded and saw these access points.
    Scanned(Vec<AccessPointInfo>),
    /// The call, one on the radio, failed.
    WifiFailed(W),
    /// The call, one on the discovery service, failed.
    MdnsFailed(M),
}

/// An `Event` as contracts speak of it.
pub enum EventView<W, M> {
    Succeeded,
    Scanned(Seq<AccessPointInfoView>),
    WifiFailed(W),
    MdnsFailed(M),
}

impl<W, M> View for Event<W, M> {
    type V = EventView<W, M>;

    open spec fn view(&self) -> EventView<W, M> {
        match self {
            Event::Succeeded => EventView::Succeeded,
            Event::Scanned(access_points) => EventView::Scanned(scan_view(access_points@)),
            Event::WifiFailed(e) => EventView::WifiFailed(*e),
            Event::MdnsFailed(e) => EventView::MdnsFailed(*e),
        }
    }
}

/// What the sequencer answers.
#[derive(Debug)]
pub enum Step<W, M> {
    /// Make this call and report how it went.
    Perform(Action),
    /// The attempt has ended just now, in this way.
    Finished(Result<(), NetworkError<W, M>>),
    /// No call is outstanding: the attempt has not started, or has ended
    /// before.
    Idle,
}

/// A `Step` as contracts speak of it.
pub enum StepView<W, M> {
    Perform(ActionView),
    Finished(Result<(), NetworkError<W, M>>),
    Idle,
}

impl<W, M> View for Step<W, M> {
    type V = StepView<W, M>;

    open spec fn view(&self) -> StepView<W, M> {
        match self {
            Step::Perform(action) => StepView::Perform(action@),
            Step::Finished(outcome) => StepView::Finished(*outcome),
            Step::Idle => StepView::Idle,
        }
    }
}

/// The channel of the first access point of `access_points` that is named
/// `ssid`, if there is one.
pub open spec fn resolved_channel(access_points: Seq<AccessPointInfoView>, ssid: Seq<char>) -> Option<
    u8,
>
    decreases access_points.len(),
{
    if access_points.len() == 0 {
        None
    } else if access_points.first().ssid == ssid {
        Some(access_points.first().channel)
    } else {
        resolved_channel(access_points.drop_first(), ssid)
    }
}

/// The state of a bootstrap attempt as contracts speak of it.
pub struct NetworkView {
    pub stage: Stage,
    /// The network name as stored.
    pub stored_ssid: Seq<u8>,
    /// The pre-shared key as stored.
    pub stored_psk: Seq<u8>,
    /// The device's name.
    pub name: Seq<char>,
    /// The network name as text; it is set when the attempt starts.
    pub ssid: Seq<char>,
    /// The pre-shared key as text; it is set when the attempt starts.
    pub password: Seq<char>,
    /// The channel that the scan resolved, if any.
    pub channel: Option<u8>,
}

/// The stage that follows `stage` when the call that `stage` waits for
/// succeeds.
pub open spec fn next_stage(stage: Stage) -> Stage {
    match stage {
        Stage::Idle => Stage::Idle,
        Stage::StagingDefaults => Stage::Starting,
        Stage::Starting => Stage::Scanning,
        Stage::Scanning => Stage::StagingCredentials,
        Stage::StagingCredentials => Stage::Connecting,
        Stage::Connecting => Stage::AwaitingAddress,
        Stage::AwaitingAddress => Stage::ReadingAddress,
        Stage::ReadingAddress => Stage::NamingHost,
        Stage::NamingHost => Stage::NamingInstance,
        Stage::NamingInstance => Stage::Advertising,
        Stage::Advertising => Stage::Done,
        Stage::Done => Stage::Done,
        Stage::Failed => Stage::Failed,
    }
}

/// `stage` waits for a call on the radio.
pub open spec fn awaits_wifi(stage: Stage) -> bool {
    stage == Stage::StagingDefaults || stage == Stage::Starting || stage == Stage::Scanning
        || stage == Stage::StagingCredentials || stage == Stage::Connecting || stage
        == Stage::AwaitingAddress || stage == Stage::ReadingAddress
}

/// `stage` waits for a call on the discovery service.
pub open spec fn awaits_mdns(stage: Stage) -> bool {
    stage == Stage::NamingHost || stage == Stage::NamingInstance || stage == Stage::Advertising
}

/// The service that a device named `name` advertises.
pub open spec fn advertised_service(name: Seq<char>) -> ServiceRecordView {
    ServiceRecordView {
        instance_name: name,
        service_type: SERVICE_TYPE@,
        proto: SERVICE_PROTOCOL@,
        port: SERVICE_PORT,
    }
}

/// The configuration that is staged before the connection.
pub open spec fn staged_configuration(state: NetworkView) -> ClientConfigurationView {
    ClientConfigurationView {
        ssid: state.ssid,
        password: state.password,
        channel: state.channel,
        auth_method: AuthMethod::WPA2Personal,
    }
}

/// The call that `state` waits for, if it waits for one.
pub open spec fn pending(state: NetworkView) -> Option<ActionView> {
    match state.stage {
        Stage::Idle => None,
        Stage::StagingDefaults => Some(ActionView::StageDefaultConfiguration),
        Stage::Starting => Some(ActionView::Start),
        Stage::Scanning => Some(ActionView::Scan),
        Stage::StagingCredentials => Some(
            ActionView::StageConfiguration(staged_configuration(state)),
        ),
        Stage::Connecting => Some(ActionView::Connect),
        Stage::AwaitingAddress => Some(ActionView::WaitNetifUp),
        Stage::ReadingAddress => Some(ActionView::GetIpInfo),
        Stage::NamingHost => Some(ActionView::SetHostname(state.name)),
        Stage::NamingInstance => Some(ActionView::SetInstanceName(state.name)),
        Stage::Advertising => Some(ActionView::AddService(advertised_service(state.name))),
        Stage::Done => None,
        Stage::Failed => None,
    }
}

/// `event` is an answer to the call that `stage` waits for: a scan is
/// answered by its result, any other call by its success, and either by a
/// failure of the subsystem that the call went to.
pub open spec fn answers<W, M>(stage: Stage, event: EventView<W, M>) -> bool {
    match event {
        EventView::Succeeded => (awaits_wifi(stage) && stage != Stage::Scanning) || awaits_mdns(
            stage,
        ),
        EventView::Scanned(_) => stage == Stage::Scanning,
        EventView::WifiFailed(_) => awaits_wifi(stage),
        EventView::MdnsFailed(_) => awaits_mdns(stage),
    }
}

/// The state that follows `state` on `event`. An event that is no answer to
/// the call that `state` waits for changes nothing.
pub open spec fn advanced<W, M>(state: NetworkView, event: EventView<W, M>) -> NetworkView {
    if !answers(state.stage, event) {
        state
    } else {
        match event {
            EventView::Succeeded => NetworkView { stage: next_stage(state.stage), ..state },
            EventView::Scanned(access_points) => NetworkView {
                stage: Stage::StagingCredentials,
                channel: resolved_channel(access_points, state.ssid),
                ..state
            },
            EventView::WifiFailed(_) => NetworkView { stage: Stage::Failed, ..state },
            EventView::MdnsFailed(_) => NetworkView { stage: Stage::Failed, ..state },
        }
    }
}

/// What the caller is told in `state`: the call that `state` waits for, or
/// that none is outstanding.
pub open spec fn told<W, M>(state: NetworkView) -> StepView<W, M> {
    match pending(state) {
        Some(action) => StepView::Perform(action),
        None => StepView::Idle,
    }
}

/// The sequencer's answer to `event` in `state`.
pub open spec fn answer<W, M>(state: NetworkView, event: EventView<W, M>) -> StepView<W, M> {
    if !answers(state.stage, event) {
        told(state)
    } else {
        match event {
            EventView::WifiFailed(e) => StepView::Finished(Err(NetworkError::WifiError(e))),
            EventView::MdnsFailed(e) => StepView::Finished(Err(NetworkError::MdnsError(e))),
            _ => match pending(advanced(state, event)) {
                Some(action) => StepView::Perform(action),
                None => StepView::Finished(Ok(())),
            },
        }
    }
}

/// What the caller is told when the attempt starts from `state`: the first
/// call on the radio, or that the attempt has failed on the first stored
/// credential that is not UTF-8 text, the network name before the
/// pre-shared key.
pub open spec fn start_answer<W, M>(state: NetworkView) -> StepView<W, M> {
    if state.stage != Stage::Idle {
        told(state)
    } else if !valid_utf8(state.stored_ssid) {
        StepView::Finished(
            Err(
                NetworkError::Utf8Error(
                    Utf8Error { valid_up_to: valid_up_to(state.stored_ssid) as usize },
                ),
            ),
        )
    } else if !valid_utf8(state.stored_psk) {
        StepView::Finished(
            Err(
                NetworkError::Utf8Error(
                    Utf8Error { valid_up_to: valid_up_to(state.stored_psk) as usize },
                ),
            ),
        )
    } else {
        StepView::Perform(ActionView::StageDefaultConfiguration)
    }
}

/// The state in which the attempt starts from `state`: it fails where a
/// stored credential is not UTF-8 text, and else waits for the first call
/// on the radio. An attempt that has started cannot start again.
pub open spec fn started(state: NetworkView) -> NetworkView {
    if state.stage != Stage::Idle {
        state
    } else if !valid_utf8(state.stored_ssid) || !valid_utf8(state.stored_psk) {
        NetworkView { stage: Stage::Failed, ..state }
    } else {
        NetworkView {
            stage: Stage::StagingDefaults,
            ssid: decode_utf8(state.stored_ssid),
            password: decode_utf8(state.stored_psk),
            channel: None,
            ..state
        }
    }
}

impl Stage {
    /// The stage waits for a call on the radio.
    pub fn is_wifi(self) -> (r: bool)
        ensures
            r == awaits_wifi(self),
    {
        match self {
            Stage::StagingDefaults
            | Stage::Starting
            | Stage::Scanning
            | Stage::StagingCredentials
            | Stage::Connecting
            | Stage::AwaitingAddress
            | Stage::ReadingAddress => true,
            _ => false,
        }
    }

    /// The stage waits for a call on the discovery service.
    pub fn is_mdns(self) -> (r: bool)
        ensures
            r == awaits_mdns(self),
    {
        match self {
            Stage::NamingHost | Stage::NamingInstance | Stage::Advertising => true,
            _ => false,
        }
    }

    /// The attempt has ended.
    pub fn is_terminal(self) -> (r: bool)
        ensures
            r == (self == Stage::Done || self == Stage::Failed),
    {
        match self {
            Stage::Done | Stage::Failed => true,
            _ => false,
        }
    }

    /// The stage that follows when the call that this one waits for
    /// succeeds.
    pub fn next(self) -> (r: Stage)
        ensures
            r == next_stage(self),
    {
        match self {
            Stage::Idle => Stage::Idle,
            Stage::StagingDefaults => Stage::Starting,
            Stage::Starting => Stage::Scanning,
            Stage::Scanning => Stage::StagingCredentials,
            Stage::StagingCredentials => Stage::Connecting,
            Stage::Connecting => Stage::AwaitingAddress,
            Stage::AwaitingAddress => Stage::ReadingAddress,
            Stage::ReadingAddress => Stage::NamingHost,
            Stage::NamingHost => Stage::NamingInstance,
            Stage::NamingInstance => Stage::Advertising,
            Stage::Advertising => Stage::Done,
            Stage::Done => Stage::Done,
            Stage::Failed => Stage::Failed,
        }
    }
}

/// The channel of the first of `access_points` that is named `ssid`; `None`
/// where none is.
pub fn resolve_channel(access_points: &Vec<AccessPointInfo>, ssid: &String) -> (r: Option<u8>)
    ensures
        r == resolved_channel(scan_view(access_points@), ssid@),
{
    let ghost all = scan_view(access_points@);
    let mut i: usize = 0;
    assert(all.skip(0) =~= all);
    while i < access_points.len()
        invariant
            i <= access_points.len(),
            all == scan_view(access_points@),
            resolved_channel(all, ssid@) == resolved_channel(all.skip(i as int), ssid@),
        decreases access_points.len() - i,
    {
        let ghost rest = all.skip(i as int);
        assert(rest.first() == access_points@[i as int]@);
        if access_points[i].ssid == *ssid {
            return Some(access_points[i].channel);
        }
        assert(rest.drop_first() =~= all.skip(i + 1));
        i += 1;
    }
    assert(all.skip(i as int).len() == 0);
    None
}

/// One bootstrap attempt.
pub struct Network {
    stored_ssid: Vec<u8>,
    stored_psk: Vec<u8>,
    name: String,
    stage: Stage,
    ssid: String,
    password: String,
    channel: Option<u8>,
}

impl View for Network {
    type V = NetworkView;

    closed spec fn view(&self) -> NetworkView {
        NetworkView {
            stage: self.stage,
            stored_ssid: self.stored_ssid@,
            stored_psk: self.stored_psk@,
            name: self.name@,
            ssid: self.ssid@,
            password: self.password@,
            channel: self.channel,
        }
    }
}

impl Network {
    #[verifier::type_invariant]
    spec fn well_formed(&self) -> bool {
        &&& self.stored_ssid@.len() <= MAX_SSID_BYTES
        &&& self.stored_psk@.len() <= MAX_PASSWORD_BYTES
        &&& encode_utf8(self.ssid@).len() <= MAX_SSID_BYTES
        &&& encode_utf8(self.password@).len() <= MAX_PASSWORD_BYTES
    }

    /// An attempt, not started yet, for the device named `name` with the
    /// credentials that `config` holds now; later changes of `config` do not
    /// reach it.
    pub fn new(config: &Config, name: &Name) -> (r: Network)
        ensures
            r@ == (NetworkView {
                stage: Stage::Idle,
                stored_ssid: config.ssid@,
                stored_psk: config.psk@,
                name: name@,
                ssid: Seq::<char>::empty(),
                password: Seq::<char>::empty(),
                channel: None,
            }),
    {
        Network {
            stored_ssid: slice_to_vec(config.ssid.get()),
            stored_psk: slice_to_vec(config.psk.get()),
            name: name.as_str().to_owned(),
            stage: Stage::Idle,
            ssid: String::new(),
            password: String::new(),
            channel: None,
        }
    }

    /// Where the attempt stands.
    pub fn stage(&self) -> (r: Stage)
        ensures
            r == self@.stage,
    {
        self.stage
    }

    /// The stored network name as text.
    pub fn get_ssid(&self) -> (r: Result<String, Utf8Error>)
        ensures
            match r {
                Ok(text) => decoded(self@.stored_ssid) == Ok::<Seq<char>, Utf8Error>(text@)
                    && encode_utf8(text@) == self@.stored_ssid,
                Err(e) => decoded(self@.stored_ssid) == Err::<Seq<char>, Utf8Error>(e),
            },
    {
        match decode(self.stored_ssid.as_slice()) {
            Ok(text) => Ok(text.to_owned()),
            Err(e) => Err(e),
        }
    }

    /// The stored pre-shared key as text.
    pub fn get_password(&self) -> (r: Result<String, Utf8Error>)
        ensures
            match r {
                Ok(text) => decoded(self@.stored_psk) == Ok::<Seq<char>, Utf8Error>(text@)
                    && encode_utf8(text@) == self@.stored_psk,
                Err(e) => decoded(self@.stored_psk) == Err::<Seq<char>, Utf8Error>(e),
            },
    {
        match decode(self.stored_psk.as_slice()) {
            Ok(text) => Ok(text.to_owned()),
            Err(e) => Err(e),
        }
    }

    /// The call that the attempt waits for, if it waits for one.
    pub fn pending_action(&self) -> (r: Option<Action>)
        ensures
            match r {
                Some(action) => pending(self@) == Some(action@),
                None => pending(self@) is None,
            },
            r matches Some(Action::StageConfiguration(configuration)) ==> configuration@.fits(),
    {
        proof {
            use_type_invariant(self);
        }
        match self.stage {
            Stage::Idle => None,
            Stage::StagingDefaults => Some(Action::StageDefaultConfiguration),
            Stage::Starting => Some(Action::Start),
            Stage::Scanning => Some(Action::Scan),
            Stage::StagingCredentials => Some(
                Action::StageConfiguration(
                    ClientConfiguration {
                        ssid: self.ssid.clone(),
                        password: self.password.clone(),
                        channel: self.channel,
                        auth_method: AuthMethod::WPA2Personal,
                    },
                ),
            ),
            Stage::Connecting => Some(Action::Connect),
            Stage::AwaitingAddress => Some(Action::WaitNetifUp),
            Stage::ReadingAddress => Some(Action::GetIpInfo),
            Stage::NamingHost => Some(Action::SetHostname(self.name.clone())),
            Stage::NamingInstance => Some(Action::SetInstanceName(self.name.clone())),
            Stage::Advertising => Some(
                Action::AddService(
                    ServiceRecord {
                        instance_name: self.name.clone(),
                        service_type: SERVICE_TYPE.to_owned(),
                        proto: SERVICE_PROTOCOL.to_owned(),
                        port: SERVICE_PORT,
                    },
                ),
            ),
            Stage::Done => None,
            Stage::Failed => None,
        }
    }

    /// What the caller is told now: the call that the attempt waits for, or
    /// that none is outstanding.
    pub fn tell<W, M>(&self) -> (step: Step<W, M>)
        ensures
            step@ == told::<W, M>(self@),
            step matches Step::Perform(Action::StageConfiguration(configuration))
                ==> configuration@.fits(),
    {
        match self.pending_action() {
            Some(action) => Step::Perform(action),
            None => Step::Idle,
        }
    }

    /// Starts the attempt: decodes the network name, then the pre-shared key,
    /// and asks for the first call on the radio. Where one of the two is not
    /// UTF-8 text the attempt fails at once, before any call is asked for.
    /// An attempt that has started before is left as it is.
    pub fn start<W, M>(&mut self) -> (step: Step<W, M>)
        ensures
            final(self)@ == started(old(self)@),
            step@ == start_answer::<W, M>(old(self)@),
    {
        proof {
            use_type_invariant(&*self);
        }
        if self.stage != Stage::Idle {
            return self.tell();
        }
        let ssid = match self.get_ssid() {
            Ok(ssid) => ssid,
            Err(e) => {
                self.stage = Stage::Failed;
                return Step::Finished(Err(NetworkError::Utf8Error(e)));
            },
        };
        let password = match self.get_password() {
            Ok(password) => password,
            Err(e) => {
                self.stage = Stage::Failed;
                return Step::Finished(Err(NetworkError::Utf8Error(e)));
            },
        };
        Step::Perform(self.start_wifi(ssid, password))
    }

    /// Enters the radio's part of the attempt with the credentials as text,
    /// and gives its first call.
    fn start_wifi(&mut self, ssid: String, password: String) -> (action: Action)
        requires
            encode_utf8(ssid@).len() <= MAX_SSID_BYTES,
            encode_utf8(password@).len() <= MAX_PASSWORD_BYTES,
        ensures
            final(self)@ == (NetworkView {
                stage: Stage::StagingDefaults,
                ssid: ssid@,
                password: password@,
                channel: None,
                ..old(self)@
            }),
            action@ == ActionView::StageDefaultConfiguration,
    {
        proof {
            use_type_invariant(&*self);
        }
        self.ssid = ssid;
        self.password = password;
        self.channel = None;
        self.stage = Stage::StagingDefaults;
        Action::StageDefaultConfiguration
    }

    /// Enters the discovery service's part of the attempt, and gives its
    /// first call.
    fn start_mdns(&mut self) -> (action: Action)
        ensures
            final(self)@ == (NetworkView { stage: Stage::NamingHost, ..old(self)@ }),
            action@ == ActionView::SetHostname(old(self)@.name),
    {
        proof {
            use_type_invariant(&*self);
        }
        self.stage = Stage::NamingHost;
        Action::SetHostname(self.name.clone())
    }

    /// Takes the report on the call that was asked for last, and answers
    /// with what follows: the next call, the end of the attempt, or, where
    /// `event` is no answer to the call that the attempt waits for, what it
    /// waits for still.
    pub fn step<W, M>(&mut self, event: Event<W, M>) -> (step: Step<W, M>)
        ensures
            final(self)@ == advanced(old(self)@, event@),
            step@ == answer(old(self)@, event@),
            step matches Step::Perform(Action::StageConfiguration(configuration))
                ==> configuration@.fits(),
    {
        proof {
            use_type_invariant(&*self);
        }
        let stage = self.stage;
        match event {
            Event::Succeeded => {
                if stage == Stage::ReadingAddress {
                    Step::Perform(self.start_mdns())
                } else if (stage.is_wifi() && stage != Stage::Scanning) || stage.is_mdns() {
                    self.stage = stage.next();
                    match self.pending_action() {
                        Some(action) => Step::Perform(action),
                        None => Step::Finished(Ok(())),
                    }
                } else {
                    self.tell()
                }
            },
            Event::Scanned(access_points) => {
                if stage == Stage::Scanning {
                    self.channel = resolve_channel(&access_points, &self.ssid);
                    self.stage = Stage::StagingCredentials;
                    self.tell()
                } else {
                    self.tell()
                }
            },
            Event::WifiFailed(e) => {
                if stage.is_wifi() {
                    self.stage = Stage::Failed;
                    Step::Finished(Err(NetworkError::WifiError(e)))
                } else {
                    self.tell()
                }
            },
            Event::MdnsFailed(e) => {
                if stage.is_mdns() {
                    self.stage = Stage::Failed;
                    Step::Finished(Err(NetworkError::MdnsError(e)))
                } else {
                    self.tell()
                }
            },
        }
    }
}

/// How far `stage` is along the fixed order of the calls.
pub open spec fn rank(stage: Stage) -> nat {
    match stage {
        Stage::Idle => 0,
        Stage::StagingDefaults => 1,
        Stage::Starting => 2,
        Stage::Scanning => 3,
        Stage::StagingCredentials => 4,
        Stage::Connecting => 5,
        Stage::AwaitingAddress => 6,
        Stage::ReadingAddress => 7,
        Stage::NamingHost => 8,
        Stage::NamingInstance => 9,
        Stage::Advertising => 10,
        Stage::Done => 11,
        Stage::Failed => 12,
    }
}

/// `action` is a call on the discovery service.
pub open spec fn is_mdns_call(action: ActionView) -> bool {
    action is SetHostname || action is SetInstanceName || action is AddService
}

/// The state after `events` were reported one after the other from `state`
/// on.
pub open spec fn after<W, M>(state: NetworkView, events: Seq<EventView<W, M>>) -> NetworkView
    decreases events.len(),
{
    if events.len() == 0 {
        state
    } else {
        after(advanced(state, events.first()), events.drop_first())
    }
}

/// Where several access points carry the stored name, the first of them
/// gives the channel.
pub proof fn lemma_first_match_wins(
    access_points: Seq<AccessPointInfoView>,
    ssid: Seq<char>,
    i: int,
)
    requires
        0 <= i < access_points.len(),
        access_points[i].ssid == ssid,
        forall|j: int| 0 <= j < i ==> access_points[j].ssid != ssid,
    ensures
        resolved_channel(access_points, ssid) == Some(access_points[i].channel),
    decreases access_points.len(),
{
    if i > 0 {
        assert(access_points[0].ssid != ssid);
        let rest = access_points.drop_first();
        assert forall|j: int| 0 <= j < i - 1 implies rest[j].ssid != ssid by {
            assert(rest[j] == access_points[j + 1]);
        }
        lemma_first_match_wins(rest, ssid, i - 1);
    }
}

/// The channel is unknown exactly where no access point carries the stored
/// name.
pub proof fn lemma_unknown_channel_iff_no_match(
    access_points: Seq<AccessPointInfoView>,
    ssid: Seq<char>,
)
    ensures
        resolved_channel(access_points, ssid) is None <==> forall|i: int|
            0 <= i < access_points.len() ==> access_points[i].ssid != ssid,
    decreases access_points.len(),
{
    if access_points.len() > 0 {
        let rest = access_points.drop_first();
        lemma_unknown_channel_iff_no_match(rest, ssid);
        if access_points[0].ssid != ssid {
            if resolved_channel(rest, ssid) is None {
                assert forall|i: int| 0 <= i < access_points.len() implies access_points[i].ssid
                    != ssid by {
                    if i > 0 {
                        assert(rest[i - 1] == access_points[i]);
                    }
                }
            } else {
                let k = choose|k: int| 0 <= k < rest.len() && rest[k].ssid == ssid;
                assert(access_points[k + 1] == rest[k]);
            }
        }
    }
}

/// A scan never ends the attempt: whatever it saw, the credentials are
/// staged next, with the channel of the first access point that carries the
/// stored name, or with none where no access point does, and with
/// WPA2-Personal authentication.
pub proof fn lemma_scan_proceeds<W, M>(state: NetworkView, access_points: Seq<AccessPointInfoView>)
    requires
        state.stage == Stage::Scanning,
    ensures
        advanced(state, EventView::<W, M>::Scanned(access_points)).stage
            == Stage::StagingCredentials,
        answer(state, EventView::<W, M>::Scanned(access_points)) == StepView::<W, M>::Perform(
            ActionView::StageConfiguration(
                ClientConfigurationView {
                    ssid: state.ssid,
                    password: state.password,
                    channel: resolved_channel(access_points, state.ssid),
                    auth_method: AuthMethod::WPA2Personal,
                },
            ),
        ),
        answer(advanced(state, EventView::<W, M>::Scanned(access_points)), EventView::<
            W,
            M,
        >::Succeeded) == StepView::<W, M>::Perform(ActionView::Connect),
{
}

/// A failure of the call that the attempt waits for ends the attempt, with
/// an error of the subsystem that failed.
pub proof fn lemma_failure_ends_attempt<W, M>(state: NetworkView, event: EventView<W, M>)
    requires
        answers(state.stage, event),
        event is WifiFailed || event is MdnsFailed,
    ensures
        advanced(state, event).stage == Stage::Failed,
        event matches EventView::WifiFailed(e) ==> answer(state, event) == StepView::Finished(
            Err(NetworkError::<W, M>::WifiError(e)),
        ),
        event matches EventView::MdnsFailed(e) ==> answer(state, event) == StepView::Finished(
            Err(NetworkError::<W, M>::MdnsError(e)),
        ),
{
}

/// Once the attempt has ended, whatever is reported changes nothing and no
/// call is asked for: after a failure on the radio the discovery service is
/// never called.
pub proof fn lemma_nothing_follows_the_end<W, M>(
    state: NetworkView,
    events: Seq<EventView<W, M>>,
    event: EventView<W, M>,
)
    requires
        state.stage == Stage::Done || state.stage == Stage::Failed,
    ensures
        after(state, events) == state,
        answer(after(state, events), event) == StepView::<W, M>::Idle,
    decreases events.len(),
{
    if events.len() > 0 {
        assert(advanced(state, events.first()) == state);
        lemma_nothing_follows_the_end(state, events.drop_first(), event);
    }
}

/// A call on the radio that fails, the connection for one, ends the attempt
/// with a radio error, and whatever is reported afterwards no call is asked
/// for: the discovery service is never called.
pub proof fn lemma_radio_failure_silences_discovery<W, M>(
    state: NetworkView,
    error: W,
    later: Seq<EventView<W, M>>,
    event: EventView<W, M>,
)
    requires
        awaits_wifi(state.stage),
    ensures
        answer(state, EventView::<W, M>::WifiFailed(error)) == StepView::Finished(
            Err(NetworkError::<W, M>::WifiError(error)),
        ),
        answer(after(advanced(state, EventView::<W, M>::WifiFailed(error)), later), event)
            == StepView::<W, M>::Idle,
{
    lemma_nothing_follows_the_end(
        advanced(state, EventView::<W, M>::WifiFailed(error)),
        later,
        event,
    );
}

/// No transition goes backward: an event leaves the stage as it is, moves it
/// to the one that follows in the fixed order, or ends the attempt with a
/// failure.
pub proof fn lemma_no_backward_transition<W, M>(state: NetworkView, event: EventView<W, M>)
    ensures
        advanced(state, event).stage == state.stage || advanced(state, event).stage
            == Stage::Failed || rank(advanced(state, event).stage) == rank(state.stage) + 1,
        advanced(state, event).stage != state.stage ==> answers(state.stage, event),
        advanced(state, event).stored_ssid == state.stored_ssid,
        advanced(state, event).stored_psk == state.stored_psk,
        advanced(state, event).name == state.name,
        advanced(state, event).ssid == state.ssid,
        advanced(state, event).password == state.password,
{
}

/// A call on the discovery service is asked for only once the address of
/// the interface has been read, that is after every call on the radio has
/// succeeded.
pub proof fn lemma_discovery_after_network_up<W, M>(state: NetworkView, event: EventView<W, M>)
    requires
        answer(state, event) matches StepView::Perform(action) && is_mdns_call(action),
    ensures
        rank(state.stage) >= rank(Stage::ReadingAddress),
        state.stage != Stage::Failed,
        state.stage == Stage::ReadingAddress ==> event is Succeeded,
{
}

/// Credentials that fit their slots fit the radio's configuration: as text
/// they take the bytes that they take in storage.
pub proof fn lemma_started_credentials(state: NetworkView)
    requires
        state.stage == Stage::Idle,
        valid_utf8(state.stored_ssid),
        valid_utf8(state.stored_psk),
    ensures
        started(state).stage == Stage::StagingDefaults,
        vstd::utf8::encode_utf8(started(state).ssid) == state.stored_ssid,
        vstd::utf8::encode_utf8(started(state).password) == state.stored_psk,
{
    vstd::utf8::decode_utf8_encode_utf8(state.stored_ssid);
    vstd::utf8::decode_utf8_encode_utf8(state.stored_psk);
}

} // verus!
