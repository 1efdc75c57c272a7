//! The handshake with the `hid:hdr` controller service, which gives
//! GameCube-controller sticks a better response: probing for the service,
//! obtaining a session, checking that it is set up, and switching stick
//! control on. The messages use the CMIF request layout.
use vstd::prelude::*;

verus! {

/// Message type of a CMIF request.
pub const CMIF_REQUEST: u32 = 4;

/// Words of raw data in a request without payload: two padding words, the
/// magic, the version, the command id, a padding word and two trailing
/// padding words.
pub const CMIF_BASE_RAW_WORDS: u32 = 8;

/// The `SFCI` magic that opens the data of a CMIF request.
pub const SFCI_MAGIC: u32 = 0x49434653;

/// Version of the CMIF request layout.
pub const CMIF_VERSION: u32 = 1;

/// Service-manager result when registering a service name that is
/// already registered.
pub const SM_RESULT_ALREADY_REGISTERED: u32 = 0x815;

/// Length of the service name `hid:hdr`, without its NUL terminator.
pub const HID_HDR_NAME_LEN: usize = 7;

/// Session limit given when probing the service by registration.
pub const HID_HDR_PROBE_MAX_SESSIONS: i32 = 100;

/// Command that asks whether the service is set up.
pub const CMD_QUERY_INSTALLED: u32 = 0;

/// Command that switches stick control on or off.
pub const CMD_SET_STICK_CONTROL: u32 = 1;

/// Word of the reply to the query that tells whether the service is set up.
pub const INSTALLED_REPLY_WORD: usize = 8;

/// The NUL-terminated service name `hid:hdr`.
pub open spec fn spec_hid_hdr_name() -> Seq<u8> {
    seq![0x68u8, 0x69u8, 0x64u8, 0x3au8, 0x68u8, 0x64u8, 0x72u8, 0u8]
}

/// The NUL-terminated service name `hid:hdr`.
pub fn hid_hdr_name() -> (name: Vec<u8>)
    ensures
        name@ == spec_hid_hdr_name(),
        name@.len() == HID_HDR_NAME_LEN + 1,
{
    let name: Vec<u8> = vec![0x68u8, 0x69u8, 0x64u8, 0x3au8, 0x68u8, 0x64u8, 0x72u8, 0u8];
    assert(name@ =~= spec_hid_hdr_name());
    name
}

/// The words of a CMIF request for `command_id` carrying `payload`.
pub open spec fn spec_cmif_request(command_id: u32, payload: Seq<u32>) -> Seq<u32> {
    seq![
        CMIF_REQUEST,
        (CMIF_BASE_RAW_WORDS + payload.len()) as u32,
        0u32,
        0u32,
        SFCI_MAGIC,
        CMIF_VERSION,
        command_id,
        0u32,
    ] + payload + seq![0u32, 0u32]
}

/// Builds the words of a CMIF request for `command_id` carrying `payload`.
pub fn cmif_request(command_id: u32, payload: &Vec<u32>) -> (message: Vec<u32>)
    requires
        payload@.len() <= 0xffff,
    ensures
        message@ == spec_cmif_request(command_id, payload@),
        message@[1] == message@.len() - 2,
{
    let raw_words: u32 = CMIF_BASE_RAW_WORDS + payload.len() as u32;
    let mut message: Vec<u32> = vec![
        CMIF_REQUEST,
        raw_words,
        0,
        0,
        SFCI_MAGIC,
        CMIF_VERSION,
        command_id,
        0,
    ];
    let ghost head = message@;
    let mut i: usize = 0;
    while i < payload.len()
        invariant
            i <= payload@.len(),
            message@ == head + payload@.take(i as int),
        decreases payload@.len() - i,
    {
        message.push(payload[i]);
        i = i + 1;
        assert(payload@.take(i as int) =~= payload@.take((i - 1) as int).push(payload@[i - 1]));
    }
    message.push(0);
    message.push(0);
    assert(payload@.take(i as int) =~= payload@);
    assert(message@ =~= spec_cmif_request(command_id, payload@));
    message
}

/// The request that asks whether the service is set up.
pub fn query_installed_request() -> (message: Vec<u32>)
    ensures
        message@ == spec_cmif_request(CMD_QUERY_INSTALLED, Seq::empty()),
        message@ == seq![4u32, 8u32, 0u32, 0u32, SFCI_MAGIC, 1u32, 0u32, 0u32, 0u32, 0u32],
{
    let payload: Vec<u32> = Vec::new();
    let message = cmif_request(CMD_QUERY_INSTALLED, &payload);
    assert(payload@ =~= Seq::<u32>::empty());
    assert(message@ =~= seq![4u32, 8u32, 0u32, 0u32, SFCI_MAGIC, 1u32, 0u32, 0u32, 0u32, 0u32]);
    message
}

/// The request that switches stick control on.
pub fn enable_stick_control_request() -> (message: Vec<u32>)
    ensures
        message@ == spec_cmif_request(CMD_SET_STICK_CONTROL, seq![1u32]),
        message@ == seq![4u32, 9u32, 0u32, 0u32, SFCI_MAGIC, 1u32, 1u32, 0u32, 1u32, 0u32, 0u32],
{
    let payload: Vec<u32> = vec![1];
    let message = cmif_request(CMD_SET_STICK_CONTROL, &payload);
    assert(payload@ =~= seq![1u32]);
    assert(message@ =~= seq![4u32, 9u32, 0u32, 0u32, SFCI_MAGIC, 1u32, 1u32, 0u32, 1u32, 0u32, 0u32]);
    message
}

/// Whether the probe registration must be undone: it succeeded, so the
/// probe now holds the name.
pub fn must_unregister_probe(register_result: u32) -> (undo: bool)
    ensures
        undo == (register_result == 0),
{
    register_result == 0
}

/// Whether the `hid:hdr` service exists: registering its name was refused
/// as already registered.
pub fn does_hid_hdr_exist(register_result: u32) -> (exists: bool)
    ensures
        exists == (register_result == SM_RESULT_ALREADY_REGISTERED),
{
    register_result == SM_RESULT_ALREADY_REGISTERED
}

/// Whether the reply to the query says the service is set up.
pub fn is_service_installed(reply: &Vec<u32>) -> (installed: bool)
    requires
        reply@.len() > INSTALLED_REPLY_WORD,
    ensures
        installed == (reply@[INSTALLED_REPLY_WORD as int] != 0),
{
    reply[INSTALLED_REPLY_WORD] != 0
}

/// Where the handshake stands.
#[derive(Clone, Copy, Debug, PartialEq, Eq)]
pub enum HidSetupState {
    Start,
    AwaitProbe,
    AwaitHandle,
    AwaitInstalledReply,
    Done,
    Failed,
}

/// What the caller observed since the last step.
#[derive(Debug)]
pub enum HidEvent {
    /// The handshake begins; whether the game runs on the Ryujinx emulator.
    Started { on_ryujinx: bool },
    /// Result of registering the service name as a probe.
    Registered { result: u32 },
    /// Result of asking the service manager for a session handle.
    HandleObtained { result: u32 },
    /// The reply words to the query whether the service is set up.
    Replied { reply: Vec<u32> },
}

/// A warning shown to the player.
#[derive(Clone, Copy, Debug, PartialEq, Eq)]
pub enum HidWarning {
    /// The service is not there; GameCube sticks will feel worse.
    ServiceUnavailable,
    /// No session handle could be had.
    NoHandle,
}

/// What the caller is to do next, in order.
#[derive(Clone, Copy, Debug, PartialEq, Eq)]
pub enum HidAction {
    /// Register the service name, to find out whether it exists.
    RegisterProbe,
    /// Undo the probe registration.
    UnregisterProbe,
    /// Ask the service manager for a session handle to the service.
    RequestHandle,
    /// Send the query whether the service is set up.
    SendQueryInstalled,
    /// Send the request that switches stick control on.
    SendEnableStickControl,
    Warn(HidWarning),
    /// Stop: the service answered that it is not set up.
    Abort,
}

/// The next state and the actions after `event` in state `state`. An event
/// that the state does not wait for changes nothing.
pub open spec fn spec_hid_step(state: HidSetupState, event: HidEvent) -> (
    HidSetupState,
    Seq<HidAction>,
) {
    match (state, event) {
        (HidSetupState::Start, HidEvent::Started { on_ryujinx }) => if on_ryujinx {
            (HidSetupState::Done, Seq::empty())
        } else {
            (HidSetupState::AwaitProbe, seq![HidAction::RegisterProbe])
        },
        (HidSetupState::AwaitProbe, HidEvent::Registered { result }) => {
            let undo = if result == 0 {
                seq![HidAction::UnregisterProbe]
            } else {
                Seq::empty()
            };
            if result == SM_RESULT_ALREADY_REGISTERED {
                (HidSetupState::AwaitHandle, undo.push(HidAction::RequestHandle))
            } else {
                (HidSetupState::Done, undo.push(HidAction::Warn(HidWarning::ServiceUnavailable)))
            }
        },
        (HidSetupState::AwaitHandle, HidEvent::HandleObtained { result }) => if result != 0 {
            (HidSetupState::Done, seq![HidAction::Warn(HidWarning::NoHandle)])
        } else {
            (HidSetupState::AwaitInstalledReply, seq![HidAction::SendQueryInstalled])
        },
        (HidSetupState::AwaitInstalledReply, HidEvent::Replied { reply }) => if reply@[INSTALLED_REPLY_WORD as int] != 0 {
            (HidSetupState::Done, seq![HidAction::SendEnableStickControl])
        } else {
            (HidSetupState::Failed, seq![HidAction::Abort])
        },
        _ => (state, Seq::empty()),
    }
}

/// The event carries what its step reads.
pub open spec fn event_wf(event: HidEvent) -> bool {
    match event {
        HidEvent::Replied { reply } => reply@.len() > INSTALLED_REPLY_WORD,
        _ => true,
    }
}

/// One step of the handshake.
pub fn hid_step(state: HidSetupState, event: &HidEvent) -> (next: (HidSetupState, Vec<HidAction>))
    requires
        event_wf(*event),
    ensures
        next.0 == spec_hid_step(state, *event).0,
        next.1@ == spec_hid_step(state, *event).1,
{
    let mut actions: Vec<HidAction> = Vec::new();
    match (state, event) {
        (HidSetupState::Start, HidEvent::Started { on_ryujinx }) => {
            if *on_ryujinx {
                (HidSetupState::Done, actions)
            } else {
                actions.push(HidAction::RegisterProbe);
                (HidSetupState::AwaitProbe, actions)
            }
        },
        (HidSetupState::AwaitProbe, HidEvent::Registered { result }) => {
            if must_unregister_probe(*result) {
                actions.push(HidAction::UnregisterProbe);
            }
            if does_hid_hdr_exist(*result) {
                actions.push(HidAction::RequestHandle);
                (HidSetupState::AwaitHandle, actions)
            } else {
                actions.push(HidAction::Warn(HidWarning::ServiceUnavailable));
                (HidSetupState::Done, actions)
            }
        },
        (HidSetupState::AwaitHandle, HidEvent::HandleObtained { result }) => {
            if *result != 0 {
                actions.push(HidAction::Warn(HidWarning::NoHandle));
                (HidSetupState::Done, actions)
            } else {
                actions.push(HidAction::SendQueryInstalled);
                (HidSetupState::AwaitInstalledReply, actions)
            }
        },
        (HidSetupState::AwaitInstalledReply, HidEvent::Replied { reply }) => {
            if is_service_installed(reply) {
                actions.push(HidAction::SendEnableStickControl);
                (HidSetupState::Done, actions)
            } else {
                actions.push(HidAction::Abort);
                (HidSetupState::Failed, actions)
            }
        },
        _ => (state, actions),
    }
}

/// The final state and all actions of the handshake over `events`.
pub open spec fn hid_run(state: HidSetupState, events: Seq<HidEvent>) -> (
    HidSetupState,
    Seq<HidAction>,
)
    decreases events.len(),
{
    if events.len() == 0 {
        (state, Seq::empty())
    } else {
        let first = spec_hid_step(state, events[0]);
        let rest = hid_run(first.0, events.drop_first());
        (rest.0, first.1 + rest.1)
    }
}

/// The handshake is over in `state`.
pub open spec fn is_finished(state: HidSetupState) -> bool {
    state == HidSetupState::Done || state == HidSetupState::Failed
}

/// Once over, the handshake asks for nothing more.
pub proof fn lemma_finished_is_quiet(state: HidSetupState, events: Seq<HidEvent>)
    requires
        is_finished(state),
    ensures
        hid_run(state, events).0 == state,
        hid_run(state, events).1 == Seq::<HidAction>::empty(),
    decreases events.len(),
{
    if events.len() > 0 {
        lemma_finished_is_quiet(state, events.drop_first());
        assert(spec_hid_step(state, events[0]).1 =~= Seq::<HidAction>::empty());
        assert(hid_run(state, events).1 =~= Seq::<HidAction>::empty());
    }
}

/// On the Ryujinx emulator the handshake touches nothing: whatever follows,
/// no action is ever asked for.
pub proof fn lemma_ryujinx_skips_handshake(events: Seq<HidEvent>)
    requires
        events.len() > 0,
        events[0] == (HidEvent::Started { on_ryujinx: true }),
    ensures
        hid_run(HidSetupState::Start, events).1 == Seq::<HidAction>::empty(),
{
    lemma_finished_is_quiet(HidSetupState::Done, events.drop_first());
    assert(hid_run(HidSetupState::Start, events).1 =~= Seq::<HidAction>::empty());
}

/// The actions that a handshake in `state` must still have asked for
/// before it can switch stick control on.
pub open spec fn steps_ahead_done(state: HidSetupState, actions: Seq<HidAction>) -> bool {
    match state {
        HidSetupState::Start => actions.contains(HidAction::RegisterProbe) && actions.contains(
            HidAction::RequestHandle,
        ) && actions.contains(HidAction::SendQueryInstalled),
        HidSetupState::AwaitProbe => actions.contains(HidAction::RequestHandle)
            && actions.contains(HidAction::SendQueryInstalled),
        HidSetupState::AwaitHandle => actions.contains(HidAction::SendQueryInstalled),
        HidSetupState::AwaitInstalledReply => true,
        _ => false,
    }
}

proof fn lemma_contains_append(a: Seq<HidAction>, b: Seq<HidAction>, x: HidAction)
    ensures
        (a + b).contains(x) <==> a.contains(x) || b.contains(x),
{
    if a.contains(x) {
        let i = choose|i: int| 0 <= i < a.len() && a[i] == x;
        assert((a + b)[i] == x);
    }
    if b.contains(x) {
        let i = choose|i: int| 0 <= i < b.len() && b[i] == x;
        assert((a + b)[a.len() + i] == x);
    }
    if (a + b).contains(x) {
        let i = choose|i: int| 0 <= i < (a + b).len() && (a + b)[i] == x;
        if i < a.len() {
            assert(a[i] == x);
        } else {
            assert(b[i - a.len()] == x);
        }
    }
}

proof fn lemma_enable_needs_steps_ahead(state: HidSetupState, events: Seq<HidEvent>)
    requires
        hid_run(state, events).1.contains(HidAction::SendEnableStickControl),
    ensures
        steps_ahead_done(state, hid_run(state, events).1),
    decreases events.len(), 1int,
{
    if events.len() == 0 {
        assert(!Seq::<HidAction>::empty().contains(HidAction::SendEnableStickControl));
    } else {
        lemma_enable_step(state, events);
    }
}

proof fn lemma_enable_step(state: HidSetupState, events: Seq<HidEvent>)
    requires
        events.len() > 0,
        hid_run(state, events).1.contains(HidAction::SendEnableStickControl),
    ensures
        steps_ahead_done(state, hid_run(state, events).1),
    decreases events.len(), 0int,
{
    let first = spec_hid_step(state, events[0]);
    let rest_events = events.drop_first();
    let rest = hid_run(first.0, rest_events);
    let all = hid_run(state, events).1;
    assert(all == first.1 + rest.1);
    lemma_contains_append(first.1, rest.1, HidAction::SendEnableStickControl);
    lemma_contains_append(first.1, rest.1, HidAction::RegisterProbe);
    lemma_contains_append(first.1, rest.1, HidAction::RequestHandle);
    lemma_contains_append(first.1, rest.1, HidAction::SendQueryInstalled);
    if first.1.contains(HidAction::SendEnableStickControl) {
        let i = choose|i: int|
            0 <= i < first.1.len() && first.1[i] == HidAction::SendEnableStickControl;
        assert(state == HidSetupState::AwaitInstalledReply);
    } else {
        assert(rest.1.contains(HidAction::SendEnableStickControl));
        if is_finished(first.0) {
            lemma_finished_is_quiet(first.0, rest_events);
            assert(!Seq::<HidAction>::empty().contains(HidAction::SendEnableStickControl));
        } else {
            lemma_enable_needs_steps_ahead(first.0, rest_events);
            if state != first.0 {
                match state {
                    HidSetupState::Start => {
                        assert(first.1[0] == HidAction::RegisterProbe);
                    },
                    HidSetupState::AwaitProbe => {
                        assert(first.1[first.1.len() - 1] == HidAction::RequestHandle);
                    },
                    HidSetupState::AwaitHandle => {
                        assert(first.1[0] == HidAction::SendQueryInstalled);
                    },
                    _ => {},
                }
            }
        }
    }
}

/// Stick control is switched on only after the whole handshake: the probe
/// registration, the session request, and the query whether the service is
/// set up.
pub proof fn lemma_stick_control_needs_handshake(events: Seq<HidEvent>)
    requires
        hid_run(HidSetupState::Start, events).1.contains(HidAction::SendEnableStickControl),
    ensures
        hid_run(HidSetupState::Start, events).1.contains(HidAction::RegisterProbe),
        hid_run(HidSetupState::Start, events).1.contains(HidAction::RequestHandle),
        hid_run(HidSetupState::Start, events).1.contains(HidAction::SendQueryInstalled),
{
    lemma_enable_needs_steps_ahead(HidSetupState::Start, events);
}

/// Layout of a request: type, size word, two padding words, magic,
/// version, command id, a padding word, the payload, two padding words.
pub proof fn lemma_cmif_layout(command_id: u32, payload: Seq<u32>)
    requires
        payload.len() <= 0xffff,
    ensures
        ({
            let m = spec_cmif_request(command_id, payload);
            &&& m.len() == payload.len() + 10
            &&& m[0] == 4 && m[2] == 0 && m[3] == 0 && m[7] == 0
            &&& m[1] == m.len() - 2
            &&& m[4] == 0x49434653u32
            &&& m[5] == 1
            &&& m[6] == command_id
            &&& m.subrange(8, 8 + payload.len() as int) == payload
            &&& m[m.len() - 2] == 0 && m[m.len() - 1] == 0
        }),
{
    let m = spec_cmif_request(command_id, payload);
    assert(m.subrange(8, 8 + payload.len() as int) =~= payload);
}

/// The probe: its registration is undone exactly when it succeeded; a
/// session is requested exactly when the name was already registered
/// (the service exists); otherwise the player is warned and the handshake
/// ends.
pub proof fn lemma_probe_step(result: u32)
    ensures
        ({
            let (next, actions) = spec_hid_step(
                HidSetupState::AwaitProbe,
                HidEvent::Registered { result },
            );
            &&& actions.contains(HidAction::UnregisterProbe) <==> result == 0
            &&& actions.contains(HidAction::RequestHandle) <==> result == 0x815
            &&& actions.contains(HidAction::Warn(HidWarning::ServiceUnavailable)) <==> result
                != 0x815
            &&& next == (if result == 0x815 {
                HidSetupState::AwaitHandle
            } else {
                HidSetupState::Done
            })
            &&& actions.len() <= 2
            &&& actions.last() == (if result == 0x815 {
                HidAction::RequestHandle
            } else {
                HidAction::Warn(HidWarning::ServiceUnavailable)
            })
        }),
{
    let (next, actions) = spec_hid_step(HidSetupState::AwaitProbe, HidEvent::Registered { result });
    if result == 0 {
        assert(actions[0] == HidAction::UnregisterProbe);
    }
    if actions.contains(HidAction::UnregisterProbe) {
        let i = choose|i: int| 0 <= i < actions.len() && actions[i] == HidAction::UnregisterProbe;
    }
    let last = actions[actions.len() - 1];
    assert(actions[actions.len() - 1] == last);
    if actions.contains(HidAction::RequestHandle) {
        let i = choose|i: int| 0 <= i < actions.len() && actions[i] == HidAction::RequestHandle;
    }
    if actions.contains(HidAction::Warn(HidWarning::ServiceUnavailable)) {
        let i = choose|i: int|
            0 <= i < actions.len() && actions[i] == HidAction::Warn(HidWarning::ServiceUnavailable);
    }
}

/// A session handle of 0 means success: then the query is sent; any other
/// result warns and ends the handshake. The reply's installed word decides
/// between switching stick control on and aborting.
pub proof fn lemma_handle_and_reply_steps(result: u32, reply: Vec<u32>)
    requires
        reply@.len() > 8,
    ensures
        spec_hid_step(HidSetupState::AwaitHandle, HidEvent::HandleObtained { result }) == (if result
            == 0 {
            (HidSetupState::AwaitInstalledReply, seq![HidAction::SendQueryInstalled])
        } else {
            (HidSetupState::Done, seq![HidAction::Warn(HidWarning::NoHandle)])
        }),
        spec_hid_step(HidSetupState::AwaitInstalledReply, HidEvent::Replied { reply }) == (if reply@[8]
            != 0 {
            (HidSetupState::Done, seq![HidAction::SendEnableStickControl])
        } else {
            (HidSetupState::Failed, seq![HidAction::Abort])
        }),
{
}

} // verus!
