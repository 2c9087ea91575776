//! The server's view of the connected SpoolBuddy device: its state, what
//! each message from the device changes and announces to the UI clients,
//! and which device requests of the REST API are accepted.
//!
//! Weights travel as the bit pattern of the `f64` gram value
//! (`f64::to_bits`); the server only stores and forwards them.

use vstd::prelude::*;
use vstd::string::StringExecFns;
use crate::api::{ApiError, STATUS_BAD_REQUEST, STATUS_NOT_FOUND, STATUS_SERVICE_UNAVAILABLE,
    STATUS_INTERNAL_SERVER_ERROR};

verus! {

/// State of the connected device.
#[derive(Debug)]
pub struct DeviceStateInner {
    pub connected: bool,
    /// Last reported weight, as `f64` bits.
    pub last_weight: Option<u64>,
    pub weight_stable: bool,
    pub current_tag_id: Option<String>,
    /// Whether a command channel to the device is open.
    pub has_command_channel: bool,
}

/// Abstract device state.
pub struct DeviceView {
    pub connected: bool,
    pub last_weight: Option<u64>,
    pub weight_stable: bool,
    pub current_tag_id: Option<Seq<char>>,
    pub has_command_channel: bool,
}

/// View of an optional string.
pub open spec fn opt_view(s: Option<String>) -> Option<Seq<char>> {
    match s {
        Some(t) => Some(t@),
        None => None,
    }
}

impl View for DeviceStateInner {
    type V = DeviceView;

    open spec fn view(&self) -> DeviceView {
        DeviceView {
            connected: self.connected,
            last_weight: self.last_weight,
            weight_stable: self.weight_stable,
            current_tag_id: opt_view(self.current_tag_id),
            has_command_channel: self.has_command_channel,
        }
    }
}

/// The state before any device connected.
pub open spec fn initial_device() -> DeviceView {
    DeviceView {
        connected: false,
        last_weight: None,
        weight_stable: false,
        current_tag_id: None,
        has_command_channel: false,
    }
}

impl Default for DeviceStateInner {
    fn default() -> (s: Self)
        ensures
            s@ == initial_device(),
    {
        Self {
            connected: false,
            last_weight: None,
            weight_stable: false,
            current_tag_id: None,
            has_command_channel: false,
        }
    }
}

/// Messages from the device.
#[derive(Debug)]
pub enum DeviceEvent {
    /// NFC tag detected.
    TagDetected { tag_id: String, tag_type: String },
    /// NFC tag removed.
    TagRemoved,
    /// Weight update from the scale (`f64` bits).
    Weight { grams: u64, stable: bool },
    /// Heartbeat.
    Heartbeat { uptime: u64 },
    /// Result of a command.
    CommandResult { request_id: String, success: bool, error: Option<String> },
}

/// Announcements to the UI clients.
#[derive(Debug)]
pub enum UiEvent {
    DeviceConnected,
    DeviceDisconnected,
    /// A tag was detected; the announcement carries the spool stored under
    /// this tag id, looked up by the caller.
    TagDetected { tag_id: String, tag_type: String },
    TagRemoved,
    Weight { grams: u64, stable: bool },
    CommandResult { request_id: String, success: bool, error: Option<String> },
}

/// Abstract device message.
pub enum DeviceEventView {
    TagDetected { tag_id: Seq<char>, tag_type: Seq<char> },
    TagRemoved,
    Weight { grams: u64, stable: bool },
    Heartbeat { uptime: u64 },
    CommandResult { request_id: Seq<char>, success: bool, error: Option<Seq<char>> },
}

/// Abstract UI announcement.
pub enum UiEventView {
    DeviceConnected,
    DeviceDisconnected,
    TagDetected { tag_id: Seq<char>, tag_type: Seq<char> },
    TagRemoved,
    Weight { grams: u64, stable: bool },
    CommandResult { request_id: Seq<char>, success: bool, error: Option<Seq<char>> },
}

impl View for DeviceEvent {
    type V = DeviceEventView;

    open spec fn view(&self) -> DeviceEventView {
        match self {
            DeviceEvent::TagDetected { tag_id, tag_type } => DeviceEventView::TagDetected {
                tag_id: tag_id@,
                tag_type: tag_type@,
            },
            DeviceEvent::TagRemoved => DeviceEventView::TagRemoved,
            DeviceEvent::Weight { grams, stable } => DeviceEventView::Weight {
                grams: *grams,
                stable: *stable,
            },
            DeviceEvent::Heartbeat { uptime } => DeviceEventView::Heartbeat { uptime: *uptime },
            DeviceEvent::CommandResult { request_id, success, error } => DeviceEventView::CommandResult {
                request_id: request_id@,
                success: *success,
                error: opt_view(*error),
            },
        }
    }
}

impl View for UiEvent {
    type V = UiEventView;

    open spec fn view(&self) -> UiEventView {
        match self {
            UiEvent::DeviceConnected => UiEventView::DeviceConnected,
            UiEvent::DeviceDisconnected => UiEventView::DeviceDisconnected,
            UiEvent::TagDetected { tag_id, tag_type } => UiEventView::TagDetected {
                tag_id: tag_id@,
                tag_type: tag_type@,
            },
            UiEvent::TagRemoved => UiEventView::TagRemoved,
            UiEvent::Weight { grams, stable } => UiEventView::Weight { grams: *grams, stable: *stable },
            UiEvent::CommandResult { request_id, success, error } => UiEventView::CommandResult {
                request_id: request_id@,
                success: *success,
                error: opt_view(*error),
            },
        }
    }
}

/// The device state after a message from the device.
pub open spec fn after_message(s: DeviceView, msg: DeviceEventView) -> DeviceView {
    match msg {
        DeviceEventView::TagDetected { tag_id, .. } => DeviceView { current_tag_id: Some(tag_id), ..s },
        DeviceEventView::TagRemoved => DeviceView { current_tag_id: None, ..s },
        DeviceEventView::Weight { grams, stable } => DeviceView {
            last_weight: Some(grams),
            weight_stable: stable,
            ..s
        },
        _ => s,
    }
}

/// What the UI clients are told about a message from the device.
pub open spec fn announcement(msg: DeviceEventView) -> Option<UiEventView> {
    match msg {
        DeviceEventView::TagDetected { tag_id, tag_type } => Some(
            UiEventView::TagDetected { tag_id, tag_type },
        ),
        DeviceEventView::TagRemoved => Some(UiEventView::TagRemoved),
        DeviceEventView::Weight { grams, stable } => Some(UiEventView::Weight { grams, stable }),
        DeviceEventView::Heartbeat { .. } => None,
        DeviceEventView::CommandResult { request_id, success, error } => Some(
            UiEventView::CommandResult { request_id, success, error },
        ),
    }
}

/// The state once a device connected and its command channel is open.
pub open spec fn after_connect(s: DeviceView) -> DeviceView {
    DeviceView { connected: true, has_command_channel: true, ..s }
}

/// The state once the device disconnected: no channel, no tag; the last
/// weight is kept.
pub open spec fn after_disconnect(s: DeviceView) -> DeviceView {
    DeviceView { connected: false, has_command_channel: false, current_tag_id: None, ..s }
}

/// Body of `POST /api/device/write-tag`.
#[derive(Debug)]
pub struct WriteTagRequest {
    pub spool_id: String,
}

/// Device status report of the REST API.
#[derive(Debug)]
pub struct DeviceStatus {
    pub connected: bool,
    pub last_weight: Option<u64>,
    pub weight_stable: bool,
    pub current_tag_id: Option<String>,
}

impl DeviceStateInner {
    /// Marks the device connected with an open command channel.
    pub fn connect(&mut self) -> (announce: UiEvent)
        ensures
            final(self)@ == after_connect(old(self)@),
            announce@ == UiEventView::DeviceConnected,
    {
        self.connected = true;
        self.has_command_channel = true;
        UiEvent::DeviceConnected
    }

    /// Cleans up after the device disconnected.
    pub fn disconnect(&mut self) -> (announce: UiEvent)
        ensures
            final(self)@ == after_disconnect(old(self)@),
            announce@ == UiEventView::DeviceDisconnected,
    {
        self.connected = false;
        self.has_command_channel = false;
        self.current_tag_id = None;
        UiEvent::DeviceDisconnected
    }

    /// Applies a message from the device; returns the announcement for the
    /// UI clients, if any.
    pub fn handle_device_message(&mut self, msg: DeviceEvent) -> (announce: Option<UiEvent>)
        ensures
            final(self)@ == after_message(old(self)@, msg@),
            match announce {
                Some(e) => announcement(msg@) == Some(e@),
                None => announcement(msg@) is None,
            },
    {
        match msg {
            DeviceEvent::TagDetected { tag_id, tag_type } => {
                self.current_tag_id = Some(tag_id.clone());
                Some(UiEvent::TagDetected { tag_id, tag_type })
            },
            DeviceEvent::TagRemoved => {
                self.current_tag_id = None;
                Some(UiEvent::TagRemoved)
            },
            DeviceEvent::Weight { grams, stable } => {
                self.last_weight = Some(grams);
                self.weight_stable = stable;
                Some(UiEvent::Weight { grams, stable })
            },
            DeviceEvent::Heartbeat { .. } => None,
            DeviceEvent::CommandResult { request_id, success, error } => {
                Some(UiEvent::CommandResult { request_id, success, error })
            },
        }
    }

    /// The status report of `GET /api/device/status`.
    pub fn device_status(&self) -> (status: DeviceStatus)
        ensures
            status.connected == self.connected,
            status.last_weight == self.last_weight,
            status.weight_stable == self.weight_stable,
            opt_view(status.current_tag_id) == opt_view(self.current_tag_id),
    {
        DeviceStatus {
            connected: self.connected,
            last_weight: self.last_weight,
            weight_stable: self.weight_stable,
            current_tag_id: match &self.current_tag_id {
                Some(t) => Some(t.clone()),
                None => None,
            },
        }
    }

    /// `POST /api/device/tare`: refused with 503 while no device is
    /// connected; otherwise returns whether a tare command is to be sent
    /// (there is a command channel).
    pub fn tare_scale(&self) -> (r: Result<bool, ApiError>)
        ensures
            r is Err <==> !self.connected,
            r matches Ok(send) ==> send == self.has_command_channel,
            r matches Err(e) ==> e.status == STATUS_SERVICE_UNAVAILABLE && e.message@
                == "Device not connected"@,
    {
        if !self.connected {
            return Err(ApiError {
                status: STATUS_SERVICE_UNAVAILABLE,
                message: String::from_str("Device not connected"),
            });
        }
        Ok(self.has_command_channel)
    }

    /// `POST /api/device/write-tag`, before the spool lookup: refused with
    /// 503 while no device is connected, with 400 while no tag is present.
    pub fn write_tag_precheck(&self) -> (r: Result<(), ApiError>)
        ensures
            r is Ok <==> self.connected && self.current_tag_id is Some,
            !self.connected ==> (r matches Err(e) && e.status == STATUS_SERVICE_UNAVAILABLE
                && e.message@ == "Device not connected"@),
            self.connected && self.current_tag_id is None ==> (r matches Err(e) && e.status
                == STATUS_BAD_REQUEST && e.message@ == "No tag present"@),
    {
        if !self.connected {
            return Err(ApiError {
                status: STATUS_SERVICE_UNAVAILABLE,
                message: String::from_str("Device not connected"),
            });
        }
        if self.current_tag_id.is_none() {
            return Err(ApiError {
                status: STATUS_BAD_REQUEST,
                message: String::from_str("No tag present"),
            });
        }
        Ok(())
    }

    /// `POST /api/device/write-tag`, after the spool lookup (`Ok(true)`:
    /// found, `Ok(false)`: no such spool, `Err`: database error text).
    /// Returns whether the write command is to be sent (there is a command
    /// channel).
    pub fn write_tag_after_lookup(&self, lookup: Result<bool, String>) -> (r: Result<bool, ApiError>)
        ensures
            r is Ok <==> lookup == Ok::<bool, String>(true),
            r matches Ok(send) ==> send == self.has_command_channel,
            lookup matches Err(msg) ==> (r matches Err(e) && e.status == STATUS_INTERNAL_SERVER_ERROR
                && e.message@ == msg@),
            lookup == Ok::<bool, String>(false) ==> (r matches Err(e) && e.status == STATUS_NOT_FOUND
                && e.message@ == "Spool not found"@),
    {
        match lookup {
            Err(msg) => Err(ApiError { status: STATUS_INTERNAL_SERVER_ERROR, message: msg }),
            Ok(false) => Err(ApiError {
                status: STATUS_NOT_FOUND,
                message: String::from_str("Spool not found"),
            }),
            Ok(true) => Ok(self.has_command_channel),
        }
    }
}

/// After the device disconnects it is reported not connected and without a
/// tag, and both device requests are refused with 503.
pub proof fn lemma_disconnect_refuses_requests(s: DeviceView)
    ensures
        !after_disconnect(s).connected,
        after_disconnect(s).current_tag_id is None,
        !after_disconnect(s).has_command_channel,
        after_disconnect(s).last_weight == s.last_weight,
{
}

/// A detected tag stays current until it is removed: a removal always
/// clears it, a detection always sets it to the detected id.
pub proof fn lemma_tag_detect_then_remove(s: DeviceView, tag_id: Seq<char>, tag_type: Seq<char>)
    ensures
        after_message(s, DeviceEventView::TagDetected { tag_id, tag_type }).current_tag_id == Some(tag_id),
        after_message(
            after_message(s, DeviceEventView::TagDetected { tag_id, tag_type }),
            DeviceEventView::TagRemoved,
        ).current_tag_id is None,
{
}

/// A heartbeat changes nothing and announces nothing.
pub proof fn lemma_heartbeat_is_silent(s: DeviceView, uptime: u64)
    ensures
        after_message(s, DeviceEventView::Heartbeat { uptime }) == s,
        announcement(DeviceEventView::Heartbeat { uptime }) is None,
{
}

/// Messages from the device never change whether it is connected or has a
/// command channel.
pub proof fn lemma_messages_keep_connection(s: DeviceView, msg: DeviceEventView)
    ensures
        after_message(s, msg).connected == s.connected,
        after_message(s, msg).has_command_channel == s.has_command_channel,
{
}

/// A weight report is what the status report shows next: the last weight
/// and its stability are the reported ones.
pub proof fn lemma_weight_report_recorded(s: DeviceView, grams: u64, stable: bool)
    ensures
        after_message(s, DeviceEventView::Weight { grams, stable }).last_weight == Some(grams),
        after_message(s, DeviceEventView::Weight { grams, stable }).weight_stable == stable,
{
}

/// A weight report reaches the UI clients as it came from the scale: the
/// same grams and the same stable flag, settling readings included; and it
/// agrees with what the status report shows next.
pub proof fn lemma_weight_announced_as_reported(s: DeviceView, grams: u64, stable: bool)
    ensures
        announcement(DeviceEventView::Weight { grams, stable }) == Some(
            UiEventView::Weight { grams, stable },
        ),
        announcement(DeviceEventView::Weight { grams, stable }) == Some(
            UiEventView::Weight {
                grams: after_message(s, DeviceEventView::Weight { grams, stable }).last_weight.unwrap(),
                stable: after_message(s, DeviceEventView::Weight { grams, stable }).weight_stable,
            },
        ),
{
}

/// Every message but a heartbeat is announced, and the announcement carries
/// the message's own contents: the tag that becomes current, the reported
/// weight and stability, the command's id, outcome and error.
pub proof fn lemma_announcement_carries_message(s: DeviceView, msg: DeviceEventView)
    ensures
        (msg is Heartbeat) <==> announcement(msg) is None,
        match msg {
            DeviceEventView::TagDetected { tag_id, tag_type } => announcement(msg) == Some(
                UiEventView::TagDetected { tag_id, tag_type },
            ) && after_message(s, msg).current_tag_id == Some(tag_id),
            DeviceEventView::TagRemoved => announcement(msg) == Some(UiEventView::TagRemoved)
                && after_message(s, msg).current_tag_id is None,
            DeviceEventView::Weight { grams, stable } => announcement(msg) == Some(
                UiEventView::Weight { grams, stable },
            ) && after_message(s, msg).last_weight == Some(grams) && after_message(
                s,
                msg,
            ).weight_stable == stable,
            DeviceEventView::Heartbeat { .. } => after_message(s, msg) == s,
            DeviceEventView::CommandResult { request_id, success, error } => announcement(msg)
                == Some(UiEventView::CommandResult { request_id, success, error })
                && after_message(s, msg) == s,
        },
{
}

/// The device state after the messages `msgs`, in order.
pub open spec fn after_messages(s: DeviceView, msgs: Seq<DeviceEventView>) -> DeviceView
    decreases msgs.len(),
{
    if msgs.len() == 0 {
        s
    } else {
        after_message(after_messages(s, msgs.drop_last()), msgs.last())
    }
}

/// Throughout a session the device stays connected with an open command
/// channel, whatever it sends; once it disconnects it has neither a channel
/// nor a tag.
pub proof fn lemma_session(s: DeviceView, msgs: Seq<DeviceEventView>)
    ensures
        after_messages(after_connect(s), msgs).connected,
        after_messages(after_connect(s), msgs).has_command_channel,
        !after_disconnect(after_messages(after_connect(s), msgs)).connected,
        after_disconnect(after_messages(after_connect(s), msgs)).current_tag_id is None,
    decreases msgs.len(),
{
    if msgs.len() > 0 {
        lemma_session(s, msgs.drop_last());
        lemma_messages_keep_connection(after_messages(after_connect(s), msgs.drop_last()), msgs.last());
    }
}

/// Lower-case hexadecimal digit.
pub open spec fn is_lower_hex(c: char) -> bool {
    (0x30 <= (c as u32) <= 0x39) || (0x61 <= (c as u32) <= 0x66)
}

/// Text of a random (version 4, RFC 4122 variant) UUID in lower-case
/// hyphenated form: `xxxxxxxx-xxxx-4xxx-Nxxx-xxxxxxxxxxxx` with N one of
/// 8, 9, a, b.
pub open spec fn uuid_v4_text(s: Seq<char>) -> bool {
    &&& s.len() == 36
    &&& forall|i: int|
        0 <= i < 36 ==> if i == 8 || i == 13 || i == 18 || i == 23 {
            #[trigger] s[i] == '-'
        } else {
            is_lower_hex(s[i])
        }
    &&& s[14] == '4'
    &&& (s[19] == '8' || s[19] == '9' || s[19] == 'a' || s[19] == 'b')
}

/// A fresh random request id: `uuid::Uuid::new_v4()` in its `Display` form.
///
/// Claimed of the outside code: `new_v4` masks a random 128-bit value so
/// that the version nibble is 4 and the variant bits are `10`, and `Display`
/// writes the 32 nibbles as lower-case hex digits in 8-4-4-4-12 groups
/// separated by `-`. Which digits come out is left open (random).
/// The random bytes come from the operating system's generator; if that
/// generator fails, `new_v4` panics. That is a failure of the environment,
/// not of any input, so no `requires` can rule it out.
#[verifier::external_body]
fn new_request_id() -> (id: String)
    ensures
        uuid_v4_text(id@),
{
    uuid::Uuid::new_v4().to_string()
}

/// Commands the server sends to the device; `S` is the spool record that a
/// tag is written with.
#[derive(Debug, Clone)]
pub enum DeviceCommand<S> {
    TareScale,
    /// Calibrate against a known weight (`f64` bits, grams).
    CalibrateScale { known_weight: u64 },
    WriteTag { spool: S },
}

/// Messages from the server to the device.
#[derive(Debug)]
pub enum ServerMessage<S> {
    /// Write a tag with the spool data, under a fresh request id.
    WriteTag { request_id: String, data: S },
    TareScale,
    /// Calibrate against a known weight (`f64` bits, grams).
    CalibrateScale { known_weight: u64 },
    /// Notification to show on the device.
    Notification { message: String, duration: u32 },
}

/// The message that carries a command to the device: a tag write gets a
/// fresh random request id.
pub fn server_message<S>(cmd: DeviceCommand<S>) -> (msg: ServerMessage<S>)
    ensures
        cmd is TareScale ==> msg is TareScale,
        cmd matches DeviceCommand::CalibrateScale { known_weight } ==> (msg matches ServerMessage::CalibrateScale { known_weight: w } && w == known_weight),
        cmd matches DeviceCommand::WriteTag { spool } ==> (msg matches ServerMessage::WriteTag { request_id, data } && data == spool && uuid_v4_text(request_id@)),
{
    match cmd {
        DeviceCommand::TareScale => ServerMessage::TareScale,
        DeviceCommand::CalibrateScale { known_weight } => ServerMessage::CalibrateScale { known_weight },
        DeviceCommand::WriteTag { spool } => ServerMessage::WriteTag {
            request_id: new_request_id(),
            data: spool,
        },
    }
}

} // verus!
