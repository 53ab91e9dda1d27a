//! The session: its state, and the decisions of its lifecycle.

use vstd::prelude::*;
use crate::descriptor::{
    candidate, first_candidate, first_match, lemma_first_match_unique,
    lemma_no_hid_setting_no_candidate, locate, located, negotiate, negotiated, no_candidate,
    none_match, AttachedDevice, DeviceIdentity, InterfaceDescriptor,
};
use crate::error::{TransportError, UsbFailure};
use crate::transfer::{
    get_report, is_get_report, is_set_report, received_bytes, set_report, FeatureExchange,
    InterruptRead, LoopAction,
};
use crate::wire::{HID_CLASS, TRANSFER_TIMEOUT_MS};

verus! {

/// Length of the buffer that receives one input report.
pub const INPUT_BUFFER_LEN: usize = 64;

/// Length of the buffer that carries one feature report.
pub const CONTROL_BUFFER_LEN: usize = 64;

/// Where a session stands in its lifecycle.
#[derive(Clone, Copy, Debug, PartialEq, Eq, Structural)]
pub enum SessionState {
    /// No device is held.
    Inactive,
    /// An interface was selected and the device is being brought up.
    Opening(InterfaceDescriptor),
    /// The interface is claimed and the read loop runs.
    Active(InterfaceDescriptor),
}

/// The mathematical content of a session.
pub struct SessionModel {
    pub identity: DeviceIdentity,
    pub input_len: usize,
    pub control_len: usize,
    pub state: SessionState,
    pub callback: bool,
}

/// The steps that bring a device up, in the order in which they are taken.
#[derive(Clone, Copy, Debug, PartialEq, Eq, Structural)]
pub enum OpenStage {
    OpenDevice,
    SetConfiguration,
    ClaimInterface,
    SetAlternateSetting,
}

/// One action of bringing a device up, with the numbers it is taken with.
#[derive(Clone, Copy, Debug, PartialEq, Eq, Structural)]
pub enum BringUpAction {
    /// Open the selected device.
    OpenDevice,
    /// Make the configuration with this number the active one.
    SetConfiguration(u8),
    /// Claim the interface with this number.
    ClaimInterface(u8),
    /// Select, on this interface, this alternate setting.
    SetAlternateSetting(u8, u8),
}

impl OpenStage {
    /// Position of the step in the sequence.
    pub open spec fn rank(self) -> nat {
        match self {
            OpenStage::OpenDevice => 0,
            OpenStage::SetConfiguration => 1,
            OpenStage::ClaimInterface => 2,
            OpenStage::SetAlternateSetting => 3,
        }
    }

    /// The step that follows, if one does.
    pub open spec fn successor(self) -> Option<OpenStage> {
        match self {
            OpenStage::OpenDevice => Some(OpenStage::SetConfiguration),
            OpenStage::SetConfiguration => Some(OpenStage::ClaimInterface),
            OpenStage::ClaimInterface => Some(OpenStage::SetAlternateSetting),
            OpenStage::SetAlternateSetting => None,
        }
    }

    /// The step is taken with the interface already claimed, so its failure
    /// leaves a claim to release.
    pub open spec fn follows_claim(self) -> bool {
        self.rank() > OpenStage::ClaimInterface.rank()
    }

    /// The step with which bringing a device up begins.
    pub fn first() -> (r: OpenStage)
        ensures
            r == OpenStage::OpenDevice,
            r.rank() == 0,
    {
        OpenStage::OpenDevice
    }

    /// The step to take after this one has succeeded; `None` after the last.
    pub fn next(self) -> (r: Option<OpenStage>)
        ensures
            r == self.successor(),
            match r {
                Some(n) => n.rank() == self.rank() + 1,
                None => self.rank() == 3,
            },
    {
        match self {
            OpenStage::OpenDevice => Some(OpenStage::SetConfiguration),
            OpenStage::SetConfiguration => Some(OpenStage::ClaimInterface),
            OpenStage::ClaimInterface => Some(OpenStage::SetAlternateSetting),
            OpenStage::SetAlternateSetting => None,
        }
    }
}

/// The step of bringing a device up that failed, and why.
#[derive(Clone, Copy, Debug, PartialEq, Eq, Structural)]
pub struct OpenFailure {
    pub stage: OpenStage,
    pub cause: UsbFailure,
}

/// What `open` selected: the device, by its position among the attached
/// ones, and the interface to claim on it.
#[derive(Clone, Copy, Debug, PartialEq, Eq, Structural)]
pub struct OpenPlan {
    pub device_index: usize,
    pub descriptor: InterfaceDescriptor,
}

impl OpenPlan {
    /// The action of a step, taken on the selected interface.
    pub open spec fn action_at(self, stage: OpenStage) -> BringUpAction {
        match stage {
            OpenStage::OpenDevice => BringUpAction::OpenDevice,
            OpenStage::SetConfiguration => BringUpAction::SetConfiguration(self.descriptor.config),
            OpenStage::ClaimInterface => BringUpAction::ClaimInterface(
                self.descriptor.interface_number,
            ),
            OpenStage::SetAlternateSetting => BringUpAction::SetAlternateSetting(
                self.descriptor.interface_number,
                self.descriptor.alternate_setting,
            ),
        }
    }

    /// What to do at the given step of bringing the selected device up.
    pub fn action(&self, stage: OpenStage) -> (r: BringUpAction)
        ensures
            r == self.action_at(stage),
    {
        match stage {
            OpenStage::OpenDevice => BringUpAction::OpenDevice,
            OpenStage::SetConfiguration => BringUpAction::SetConfiguration(self.descriptor.config),
            OpenStage::ClaimInterface => BringUpAction::ClaimInterface(
                self.descriptor.interface_number,
            ),
            OpenStage::SetAlternateSetting => BringUpAction::SetAlternateSetting(
                self.descriptor.interface_number,
                self.descriptor.alternate_setting,
            ),
        }
    }
}

/// How an attempt to open ended, and the interface that the caller has to
/// release because the attempt had claimed it before it failed.
#[derive(Clone, Copy, Debug, PartialEq, Eq)]
pub struct OpenVerdict {
    pub result: Result<(), TransportError>,
    pub release: Option<u8>,
}

impl SessionModel {
    /// The session is between a successful open and its close.
    pub open spec fn is_active(self) -> bool {
        self.state is Active
    }

    /// The stop signal: raised whenever no read loop should run.
    pub open spec fn stop_signal(self) -> bool {
        !self.is_active()
    }

    /// The negotiated interface, known exactly while the session is active.
    pub open spec fn descriptor(self) -> Option<InterfaceDescriptor> {
        match self.state {
            SessionState::Active(d) => Some(d),
            _ => None,
        }
    }

    /// While an interface is selected, its endpoint's packets fill the
    /// input buffer exactly.
    pub open spec fn well_formed(self) -> bool {
        match self.state {
            SessionState::Inactive => true,
            SessionState::Opening(d) => d.max_packet_size as int == self.input_len as int,
            SessionState::Active(d) => d.max_packet_size as int == self.input_len as int,
        }
    }

    /// The same session in another lifecycle state.
    pub open spec fn with_state(self, state: SessionState) -> SessionModel {
        SessionModel { state, ..self }
    }

    /// A session as `new` makes it.
    pub open spec fn fresh(vendor_id: u16, product_id: u16) -> SessionModel {
        SessionModel {
            identity: DeviceIdentity { vendor_id, product_id },
            input_len: INPUT_BUFFER_LEN,
            control_len: CONTROL_BUFFER_LEN,
            state: SessionState::Inactive,
            callback: false,
        }
    }

    /// The first device with the session's identity has a readable
    /// configuration that holds no candidate endpoint.
    pub open spec fn lacks_interface(self, attached: Seq<AttachedDevice>) -> bool {
        match located(attached, self.identity) {
            Some(i) => match attached[i].config {
                Ok(config) => no_candidate(config, self.input_len),
                Err(_) => false,
            },
            None => false,
        }
    }

    /// What `open` returns on the given bus.
    pub open spec fn open_result(self, attached: Seq<AttachedDevice>) -> Result<
        OpenPlan,
        TransportError,
    > {
        if self.is_active() {
            Err(TransportError::AlreadyOpen)
        } else {
            match located(attached, self.identity) {
                None => Err(TransportError::DeviceNotFound),
                Some(i) => match attached[i].config {
                    Err(cause) => Err(TransportError::TransferError(cause)),
                    Ok(config) => match negotiated(config, self.input_len) {
                        None => Err(TransportError::NoMatchingInterface),
                        Some(d) => Ok(OpenPlan { device_index: i as usize, descriptor: d }),
                    },
                },
            }
        }
    }

    /// The session after `open` on the given bus.
    pub open spec fn after_open(self, attached: Seq<AttachedDevice>) -> SessionModel {
        if self.is_active() {
            self
        } else {
            match self.open_result(attached) {
                Ok(plan) => self.with_state(SessionState::Opening(plan.descriptor)),
                Err(_) => self.with_state(SessionState::Inactive),
            }
        }
    }

    /// What `complete_open` reports.
    pub open spec fn open_verdict(self, outcome: Result<(), OpenFailure>) -> OpenVerdict {
        match self.state {
            SessionState::Inactive => OpenVerdict {
                result: Err(TransportError::NotOpen),
                release: None,
            },
            SessionState::Active(_) => OpenVerdict {
                result: Err(TransportError::AlreadyOpen),
                release: None,
            },
            SessionState::Opening(d) => match outcome {
                Ok(_) => OpenVerdict { result: Ok(()), release: None },
                Err(failure) => OpenVerdict {
                    result: Err(TransportError::TransferError(failure.cause)),
                    release: if failure.stage.follows_claim() {
                        Some(d.interface_number)
                    } else {
                        None
                    },
                },
            },
        }
    }

    /// The session after `complete_open`.
    pub open spec fn after_complete_open(self, outcome: Result<(), OpenFailure>) -> SessionModel {
        match self.state {
            SessionState::Opening(d) => match outcome {
                Ok(_) => self.with_state(SessionState::Active(d)),
                Err(_) => self.with_state(SessionState::Inactive),
            },
            _ => self,
        }
    }

    /// The interrupt read that an active session issues.
    pub open spec fn read_request(self) -> Option<InterruptRead> {
        match self.state {
            SessionState::Active(d) => Some(
                InterruptRead {
                    endpoint: d.endpoint_address,
                    length: self.input_len,
                    timeout_ms: TRANSFER_TIMEOUT_MS,
                },
            ),
            _ => None,
        }
    }

    /// The bytes that the read loop hands to the callback after a read into
    /// `buffer`: those that arrived, where any did and a callback is there.
    pub open spec fn delivery(self, outcome: Result<usize, UsbFailure>, buffer: Seq<u8>) -> Option<
        Seq<u8>,
    > {
        match outcome {
            Ok(n) => if n > 0 && self.callback {
                Some(buffer.take(n as int))
            } else {
                None
            },
            Err(_) => None,
        }
    }

    /// The read found the device gone.
    pub open spec fn device_removed(outcome: Result<usize, UsbFailure>) -> bool {
        outcome matches Err(cause) && cause.is_fatal()
    }

    /// The session after the read loop has seen `outcome`.
    pub open spec fn after_read(self, outcome: Result<usize, UsbFailure>) -> SessionModel {
        if Self::device_removed(outcome) && self.is_active() {
            self.with_state(SessionState::Inactive)
        } else {
            self
        }
    }

    /// Why a feature-report request of `len` bytes is refused, if it is.
    pub open spec fn feature_refusal(self, len: nat) -> Option<TransportError> {
        if !self.is_active() {
            Some(TransportError::NotOpen)
        } else if len > self.control_len {
            Some(TransportError::RequestTooLarge)
        } else {
            None
        }
    }

    /// What `close` returns.
    pub open spec fn close_result(self) -> Result<InterfaceDescriptor, TransportError> {
        match self.state {
            SessionState::Active(d) => Ok(d),
            _ => Err(TransportError::NotOpen),
        }
    }

    /// The session after `close`.
    pub open spec fn after_close(self) -> SessionModel {
        match self.state {
            SessionState::Active(_) => self.with_state(SessionState::Inactive),
            _ => self,
        }
    }
}

/// One HID session: the identity it looks for, its buffer lengths, whether a
/// callback is registered, and its lifecycle state.
#[derive(Debug)]
pub struct HidDevice {
    vid: u16,
    pid: u16,
    input_buffer_len: usize,
    control_buffer_len: usize,
    state: SessionState,
    callback_registered: bool,
}

impl View for HidDevice {
    type V = SessionModel;

    closed spec fn view(&self) -> SessionModel {
        SessionModel {
            identity: DeviceIdentity { vendor_id: self.vid, product_id: self.pid },
            input_len: self.input_buffer_len,
            control_len: self.control_buffer_len,
            state: self.state,
            callback: self.callback_registered,
        }
    }
}

impl HidDevice {
    #[verifier::type_invariant]
    spec fn buffer_fits_endpoint(self) -> bool {
        self@.well_formed()
    }

    /// An inactive session for the device with the given identifiers.
    pub fn new(vid: u16, pid: u16) -> (r: HidDevice)
        ensures
            r@ == SessionModel::fresh(vid, pid),
    {
        HidDevice {
            vid,
            pid,
            input_buffer_len: INPUT_BUFFER_LEN,
            control_buffer_len: CONTROL_BUFFER_LEN,
            state: SessionState::Inactive,
            callback_registered: false,
        }
    }

    /// Selects the device and the interface of a new session from what the
    /// bus reports. On success the session waits for `complete_open`; on
    /// failure it is inactive. An active session is left as it is.
    pub fn open(&mut self, attached: &Vec<AttachedDevice>) -> (r: Result<OpenPlan, TransportError>)
        ensures
            r == old(self)@.open_result(attached@),
            final(self)@ == old(self)@.after_open(attached@),
            old(self)@.is_active() ==> r == Err::<OpenPlan, TransportError>(
                TransportError::AlreadyOpen,
            ),
            !old(self)@.is_active() && none_match(attached@, old(self)@.identity) ==> r == Err::<
                OpenPlan,
                TransportError,
            >(TransportError::DeviceNotFound),
            r matches Ok(plan) ==> plan.device_index < attached@.len()
                && attached@[plan.device_index as int].identity == Some(old(self)@.identity),
            r == Err::<OpenPlan, TransportError>(TransportError::NoMatchingInterface) <==> (
            !old(self)@.is_active() && old(self)@.lacks_interface(attached@)),
            !final(self)@.is_active() || old(self)@.is_active(),
    {
        if let SessionState::Active(_) = self.state {
            return Err(TransportError::AlreadyOpen);
        }
        self.state = SessionState::Inactive;
        let wanted = DeviceIdentity { vendor_id: self.vid, product_id: self.pid };
        let index: usize = match locate(attached, wanted) {
            Ok(i) => i,
            Err(e) => {
                return Err(e);
            },
        };
        match &attached[index].config {
            Err(cause) => Err(TransportError::from_failure(*cause)),
            Ok(config) => match negotiate(config, self.input_buffer_len) {
                Err(e) => Err(e),
                Ok(descriptor) => {
                    self.state = SessionState::Opening(descriptor);
                    Ok(OpenPlan { device_index: index, descriptor })
                },
            },
        }
    }

    /// Concludes an attempt to open with the outcome of bringing the device
    /// up. Success makes the session active; a failure makes it inactive and
    /// names the interface to release where the claim had already been made.
    pub fn complete_open(&mut self, outcome: Result<(), OpenFailure>) -> (r: OpenVerdict)
        ensures
            r == old(self)@.open_verdict(outcome),
            final(self)@ == old(self)@.after_complete_open(outcome),
    {
        proof {
            use_type_invariant(&*self);
        }
        match self.state {
            SessionState::Inactive => OpenVerdict {
                result: Err(TransportError::NotOpen),
                release: None,
            },
            SessionState::Active(_) => OpenVerdict {
                result: Err(TransportError::AlreadyOpen),
                release: None,
            },
            SessionState::Opening(d) => match outcome {
                Ok(_) => {
                    self.state = SessionState::Active(d);
                    OpenVerdict { result: Ok(()), release: None }
                },
                Err(failure) => {
                    self.state = SessionState::Inactive;
                    let release: Option<u8> = match failure.stage {
                        OpenStage::SetAlternateSetting => Some(d.interface_number),
                        _ => None,
                    };
                    OpenVerdict {
                        result: Err(TransportError::from_failure(failure.cause)),
                        release,
                    }
                },
            },
        }
    }

    /// Ends an active session and hands back the interface that the caller
    /// has to release. The stop signal is raised from here on.
    pub fn close(&mut self) -> (r: Result<InterfaceDescriptor, TransportError>)
        ensures
            r == old(self)@.close_result(),
            final(self)@ == old(self)@.after_close(),
            r is Ok <==> old(self)@.is_active(),
            r is Err ==> r == Err::<InterfaceDescriptor, TransportError>(TransportError::NotOpen)
                && final(self)@ == old(self)@,
            r is Ok ==> final(self)@.stop_signal(),
    {
        match self.state {
            SessionState::Active(d) => {
                self.state = SessionState::Inactive;
                Ok(d)
            },
            _ => Err(TransportError::NotOpen),
        }
    }

    /// The top of one turn of the read loop: the read to issue, or `None`
    /// where the stop signal is raised and the loop has to end.
    pub fn begin_read(&self) -> (r: Option<InterruptRead>)
        ensures
            r == self@.read_request(),
            r is None <==> self@.stop_signal(),
            self@.well_formed(),
    {
        proof {
            use_type_invariant(self);
        }
        match self.state {
            SessionState::Active(d) => Some(
                InterruptRead {
                    endpoint: d.endpoint_address,
                    length: self.input_buffer_len,
                    timeout_ms: TRANSFER_TIMEOUT_MS,
                },
            ),
            _ => None,
        }
    }

    /// The end of one turn of the read loop. Bytes that arrived go to the
    /// callback, cut to the transferred length; a read that brought nothing,
    /// timed out or failed is passed over; a device that is gone ends the
    /// loop and the session.
    pub fn complete_read(&mut self, outcome: Result<usize, UsbFailure>, buffer: &[u8]) -> (r:
        LoopAction)
        requires
            outcome matches Ok(n) ==> n <= buffer@.len(),
        ensures
            final(self)@ == old(self)@.after_read(outcome),
            match r {
                LoopAction::Deliver(bytes) => old(self)@.delivery(outcome, buffer@) == Some(
                    bytes@,
                ),
                LoopAction::Idle => old(self)@.delivery(outcome, buffer@) is None
                    && !SessionModel::device_removed(outcome),
                LoopAction::Exit(e) => e == TransportError::DeviceRemoved
                    && SessionModel::device_removed(outcome),
            },
    {
        match outcome {
            Ok(n) => {
                if n > 0 && self.callback_registered {
                    LoopAction::Deliver(received_bytes(buffer, n))
                } else {
                    LoopAction::Idle
                }
            },
            Err(cause) => {
                if cause.device_gone() {
                    if let SessionState::Active(_) = self.state {
                        self.state = SessionState::Inactive;
                    }
                    LoopAction::Exit(TransportError::DeviceRemoved)
                } else {
                    LoopAction::Idle
                }
            },
        }
    }

    /// The interrupt read of a direct, synchronous read; `NotOpen` where the
    /// session is not active. `transferred` concludes it.
    pub fn read(&self) -> (r: Result<InterruptRead, TransportError>)
        ensures
            match r {
                Ok(q) => self@.read_request() == Some(q),
                Err(e) => e == TransportError::NotOpen && !self@.is_active(),
            },
            self@.well_formed(),
    {
        match self.begin_read() {
            Some(q) => Ok(q),
            None => Err(TransportError::NotOpen),
        }
    }

    /// The two control transfers that exchange one feature report on the
    /// session's interface. Refused with `NotOpen` where the session is not
    /// active, else with `RequestTooLarge` where the request exceeds the
    /// control buffer; no transfer is then named.
    pub fn request_feature_report(&self, request: &[u8]) -> (r: Result<
        FeatureExchange,
        TransportError,
    >)
        ensures
            match r {
                Ok(x) => self@.state matches SessionState::Active(d) && is_set_report(
                    x.set_report,
                    request@,
                    d.interface_number,
                    self@.control_len as nat,
                ) && is_get_report(x.get_report, d.interface_number, self@.control_len as nat)
                    && self@.feature_refusal(request@.len()) is None,
                Err(e) => self@.feature_refusal(request@.len()) == Some(e),
            },
            r matches Ok(x) ==> x.set_report.value == x.get_report.value && x.set_report.index
                == x.get_report.index && x.set_report.value == 0x0300,
            self@.is_active() && request@.len() > self@.control_len ==> r matches Err(
                TransportError::RequestTooLarge,
            ),
    {
        match self.state {
            SessionState::Active(d) => {
                if request.len() > self.control_buffer_len {
                    Err(TransportError::RequestTooLarge)
                } else {
                    Ok(
                        FeatureExchange {
                            set_report: set_report(
                                request,
                                d.interface_number,
                                self.control_buffer_len,
                            ),
                            get_report: get_report(d.interface_number, self.control_buffer_len),
                        },
                    )
                }
            },
            _ => Err(TransportError::NotOpen),
        }
    }

    /// Registers the input callback, in place of an earlier registration.
    pub fn set_on_input_received(&mut self)
        ensures
            final(self)@ == (SessionModel { callback: true, ..old(self)@ }),
    {
        proof {
            use_type_invariant(&*self);
        }
        self.callback_registered = true;
    }

    /// The vendor identifier that the session looks for.
    pub fn vendor_id(&self) -> (r: u16)
        ensures
            r == self@.identity.vendor_id,
    {
        self.vid
    }

    /// The product identifier that the session looks for.
    pub fn product_id(&self) -> (r: u16)
        ensures
            r == self@.identity.product_id,
    {
        self.pid
    }

    /// Length of the buffer for one input report.
    pub fn input_buffer_len(&self) -> (r: usize)
        ensures
            r == self@.input_len,
    {
        self.input_buffer_len
    }

    /// Length of the buffer for one feature report.
    pub fn control_buffer_len(&self) -> (r: usize)
        ensures
            r == self@.control_len,
    {
        self.control_buffer_len
    }

    /// The negotiated interface; `None` unless the session is active.
    pub fn interface_descriptor(&self) -> (r: Option<InterfaceDescriptor>)
        ensures
            r == self@.descriptor(),
            r is Some <==> self@.is_active(),
            self@.well_formed(),
    {
        proof {
            use_type_invariant(self);
        }
        match self.state {
            SessionState::Active(d) => Some(d),
            _ => None,
        }
    }

    /// The stop signal that the read loop obeys: lowered exactly while the
    /// session is active.
    pub fn stop_requested(&self) -> (r: bool)
        ensures
            r == self@.stop_signal(),
    {
        !self.is_valid()
    }

    /// Tells whether the session is active.
    pub fn is_valid(&self) -> (r: bool)
        ensures
            r == self@.is_active(),
    {
        match self.state {
            SessionState::Active(_) => true,
            _ => false,
        }
    }
}

/// One finished turn of the read loop: what the transport reported, and
/// the buffer that it filled.
pub struct FinishedRead {
    pub outcome: Result<usize, UsbFailure>,
    pub buffer: Seq<u8>,
}

/// The payloads that the callback receives over a run of reads, in order.
pub open spec fn deliveries(s: SessionModel, reads: Seq<FinishedRead>) -> Seq<Seq<u8>>
    decreases reads.len(),
{
    if reads.len() == 0 {
        Seq::empty()
    } else {
        let earlier = deliveries(s, reads.drop_last());
        match s.delivery(reads.last().outcome, reads.last().buffer) {
            Some(bytes) => earlier.push(bytes),
            None => earlier,
        }
    }
}

/// With a callback registered, a run of reads that each brought at least one
/// byte leads to one delivery per read, each of exactly the bytes that
/// arrived and not of the whole buffer, and leaves the session as it was.
pub proof fn lemma_every_packet_delivered(s: SessionModel, reads: Seq<FinishedRead>)
    requires
        s.callback,
        forall|i: int|
            0 <= i < reads.len() ==> (#[trigger] reads[i]).outcome is Ok && 0
                < reads[i].outcome->Ok_0 <= reads[i].buffer.len(),
    ensures
        deliveries(s, reads).len() == reads.len(),
        forall|i: int|
            0 <= i < reads.len() ==> (#[trigger] deliveries(s, reads)[i]) == reads[i].buffer.take(
                reads[i].outcome->Ok_0 as int,
            ) && deliveries(s, reads)[i].len() == reads[i].outcome->Ok_0,
        forall|i: int| 0 <= i < reads.len() ==> s.after_read((#[trigger] reads[i]).outcome) == s,
    decreases reads.len(),
{
    if reads.len() > 0 {
        let earlier = reads.drop_last();
        assert forall|i: int| 0 <= i < earlier.len() implies (#[trigger] earlier[i]).outcome is Ok
            && 0 < earlier[i].outcome->Ok_0 <= earlier[i].buffer.len() by {
            assert(earlier[i] == reads[i]);
        }
        lemma_every_packet_delivered(s, earlier);
        let last = reads.last();
        assert(last == reads[reads.len() - 1]);
        assert forall|i: int| 0 <= i < reads.len() implies (#[trigger] deliveries(s, reads)[i])
            == reads[i].buffer.take(reads[i].outcome->Ok_0 as int) && deliveries(s, reads)[i].len()
            == reads[i].outcome->Ok_0 by {
            if i < earlier.len() {
                assert(earlier[i] == reads[i]);
                assert(deliveries(s, reads)[i] == deliveries(s, earlier)[i]);
            }
        }
    }
}

/// A read that brought nothing, timed out or failed for a reason other than
/// the device being gone delivers nothing and leaves the session as it was.
pub proof fn lemma_quiet_read_changes_nothing(
    s: SessionModel,
    outcome: Result<usize, UsbFailure>,
    buffer: Seq<u8>,
)
    requires
        outcome == Ok::<usize, UsbFailure>(0) || (outcome is Err && outcome->Err_0
            != UsbFailure::NoDevice),
    ensures
        s.delivery(outcome, buffer) is None,
        s.after_read(outcome) == s,
{
}

/// An inactive session refuses every operation at once: it names no read
/// and no control transfer, and it cannot be closed.
pub proof fn lemma_inactive_session_refuses(s: SessionModel, len: nat)
    requires
        !s.is_active(),
    ensures
        s.read_request() is None,
        s.feature_refusal(len) == Some(TransportError::NotOpen),
        s.close_result() == Err::<InterfaceDescriptor, TransportError>(TransportError::NotOpen),
        s.after_close() == s,
{
}

/// A raised stop signal stays raised through closing, reading and selecting
/// a device; only the successful end of bringing a device up lowers it.
pub proof fn lemma_stop_signal_stays_raised(
    s: SessionModel,
    attached: Seq<AttachedDevice>,
    read: Result<usize, UsbFailure>,
    brought_up: Result<(), OpenFailure>,
)
    requires
        s.stop_signal(),
    ensures
        s.after_close().stop_signal(),
        s.after_read(read).stop_signal(),
        s.after_open(attached).stop_signal(),
        !s.after_complete_open(brought_up).stop_signal() <==> (s.state is Opening
            && brought_up is Ok),
{
}

/// Once the read loop has found the device gone, the session is inactive:
/// the stop signal is raised and every later operation is refused.
pub proof fn lemma_removed_device_ends_session(s: SessionModel, len: nat)
    ensures
        !s.after_read(Err(UsbFailure::NoDevice)).is_active(),
        s.after_read(Err(UsbFailure::NoDevice)).stop_signal(),
        s.after_read(Err(UsbFailure::NoDevice)).read_request() is None,
        s.after_read(Err(UsbFailure::NoDevice)).feature_refusal(len) == Some(
            TransportError::NotOpen,
        ),
        s.after_read(Err(UsbFailure::NoDevice)).close_result() is Err,
{
}

/// The endpoint that `open` selects fills the input buffer exactly, so every
/// read of the session asks for one full packet; opening, reading and
/// closing keep it so.
pub proof fn lemma_selected_endpoint_fills_buffer(
    s: SessionModel,
    attached: Seq<AttachedDevice>,
    brought_up: Result<(), OpenFailure>,
    read: Result<usize, UsbFailure>,
)
    ensures
        s.open_result(attached) matches Ok(plan) ==> plan.descriptor.max_packet_size as int
            == s.input_len as int,
        s.well_formed() ==> s.after_open(attached).well_formed(),
        s.well_formed() ==> s.after_complete_open(brought_up).well_formed(),
        s.well_formed() ==> s.after_read(read).well_formed(),
        s.well_formed() ==> s.after_close().well_formed(),
        s.well_formed() ==> (s.read_request() matches Some(q) ==> s.descriptor() matches Some(d)
            && q.length as int == d.max_packet_size as int),
{
    if s.open_result(attached) is Ok {
        selected_endpoint_fits(s, attached);
    }
}

proof fn selected_endpoint_fits(s: SessionModel, attached: Seq<AttachedDevice>)
    requires
        s.open_result(attached) is Ok,
    ensures
        s.open_result(attached)->Ok_0.descriptor.max_packet_size as int == s.input_len as int,
{
    let i = located(attached, s.identity)->Some_0;
    let config = attached[i].config->Ok_0;
    let (a, b, d) = choose|a: int, b: int, d: int|
        first_candidate(config, s.input_len, a, b, d);
    assert(candidate(config, s.input_len, a, b, d));
}

/// Closing an active session leaves a session that cannot be closed again:
/// the second close reports `NotOpen` and changes nothing, so the interface
/// is handed out for release exactly once.
pub proof fn lemma_close_releases_once(s: SessionModel)
    requires
        s.is_active(),
    ensures
        s.close_result() is Ok,
        s.after_close().close_result() == Err::<InterfaceDescriptor, TransportError>(
            TransportError::NotOpen,
        ),
        s.after_close().after_close() == s.after_close(),
{
}

/// A session that was never opened cannot be closed: `close` reports
/// `NotOpen` and leaves the session as it was made.
pub proof fn lemma_close_before_open(vendor_id: u16, product_id: u16)
    ensures
        SessionModel::fresh(vendor_id, product_id).close_result() == Err::<
            InterfaceDescriptor,
            TransportError,
        >(TransportError::NotOpen),
        SessionModel::fresh(vendor_id, product_id).after_close() == SessionModel::fresh(
            vendor_id,
            product_id,
        ),
{
}

/// Where no attached device carries the session's identity, `open` reports
/// `DeviceNotFound` and the session stays inactive.
pub proof fn lemma_open_without_device(s: SessionModel, attached: Seq<AttachedDevice>)
    requires
        !s.is_active(),
        none_match(attached, s.identity),
    ensures
        s.open_result(attached) == Err::<OpenPlan, TransportError>(TransportError::DeviceNotFound),
        s.after_open(attached).state == SessionState::Inactive,
{
}

/// Where the matching device's configuration holds no setting of the HID
/// class, `open` reports `NoMatchingInterface`, the session stays inactive,
/// and no interface is handed out to be claimed.
pub proof fn lemma_open_without_hid_class(s: SessionModel, attached: Seq<AttachedDevice>, i: int)
    requires
        !s.is_active(),
        first_match(attached, s.identity, i),
        attached[i].config is Ok,
        forall|a: int, b: int|
            0 <= a < attached[i].config->Ok_0.interfaces@.len() && 0 <= b
                < attached[i].config->Ok_0.interfaces@[a].settings@.len() ==> (
            #[trigger] attached[i].config->Ok_0.interfaces@[a].settings@[b]).class_code
                != HID_CLASS,
    ensures
        s.open_result(attached) == Err::<OpenPlan, TransportError>(
            TransportError::NoMatchingInterface,
        ),
        s.after_open(attached).state == SessionState::Inactive,
        s.after_open(attached).descriptor() is None,
{
    lemma_no_hid_setting_no_candidate(attached[i].config->Ok_0, s.input_len);
    lemma_open_without_candidate(s, attached, i);
}

/// The steps of bringing a device up follow one another in one order, from
/// opening the device to selecting the alternate setting, and only a
/// failure after the claim leaves an interface to release.
pub proof fn lemma_bring_up_order(stage: OpenStage)
    ensures
        OpenStage::OpenDevice.successor() == Some(OpenStage::SetConfiguration),
        OpenStage::SetConfiguration.successor() == Some(OpenStage::ClaimInterface),
        OpenStage::ClaimInterface.successor() == Some(OpenStage::SetAlternateSetting),
        OpenStage::SetAlternateSetting.successor() is None,
        stage.successor() matches Some(n) ==> n.rank() == stage.rank() + 1,
        stage.follows_claim() <==> stage == OpenStage::SetAlternateSetting,
{
}

/// Where the matching device's configuration holds no candidate endpoint,
/// `open` reports `NoMatchingInterface`, the session stays inactive, and no
/// interface is handed out to be claimed.
pub proof fn lemma_open_without_candidate(s: SessionModel, attached: Seq<AttachedDevice>, i: int)
    requires
        !s.is_active(),
        first_match(attached, s.identity, i),
        attached[i].config matches Ok(c) && no_candidate(c, s.input_len),
    ensures
        s.open_result(attached) == Err::<OpenPlan, TransportError>(
            TransportError::NoMatchingInterface,
        ),
        s.after_open(attached).state == SessionState::Inactive,
        s.after_open(attached).descriptor() is None,
{
    let w = choose|w: int| first_match(attached, s.identity, w);
    lemma_first_match_unique(attached, s.identity, i, w);
}

/// A session is active only after an attempt to open was concluded with
/// success, and then holds exactly the interface that `open` selected.
pub proof fn lemma_active_after_open(
    s: SessionModel,
    attached: Seq<AttachedDevice>,
    outcome: Result<(), OpenFailure>,
)
    requires
        !s.is_active(),
    ensures
        s.after_open(attached).after_complete_open(outcome).is_active() <==> (s.open_result(
            attached,
        ) is Ok && outcome is Ok),
        s.after_open(attached).after_complete_open(outcome).is_active() ==> s.after_open(
            attached,
        ).after_complete_open(outcome).descriptor() == Some(
            s.open_result(attached)->Ok_0.descriptor,
        ),
{
}

} // verus!
