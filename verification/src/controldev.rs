//! What the control device decides: the outcome of a create, the authorization
//! of each later operation, and the dispatch of its control requests.
//!
//! Nothing here creates a device or touches a request. The marshalling layer
//! hands in what it read and acts on what comes back.

use vstd::prelude::*;

pub use crate::abi::status::INSUFFICIENT_RESOURCES;
pub use crate::abi::status::SUCCESS;

use crate::abi::control::validate_donate_security_context_v1;
use crate::abi::control::CONTROL_HEADER_BYTES;
use crate::abi::control::CONTROL_IOCTL_ACCESS;
use crate::abi::control::FILE_DEVICE_UNKNOWN;
use crate::abi::control::IOCTL_FSRING_ATTACH;
use crate::abi::control::IOCTL_FSRING_DETACH;
use crate::abi::control::IOCTL_FSRING_DONATE_BACKING;
use crate::abi::control::IOCTL_FSRING_DONATE_SECURITY_CONTEXT;
use crate::abi::control::IOCTL_FSRING_ENTER;
use crate::abi::control::IOCTL_FSRING_RETIRE_MOUNT;
use crate::abi::control::IOCTL_FSRING_SETUP;
use crate::abi::control::METHOD_BUFFERED;
use crate::abi::status::ACCESS_DENIED;
use crate::abi::status::NOT_SUPPORTED;
use crate::abi::status::OBJECT_NAME_NOT_FOUND;

verus! {

/// The mode a request was made from.
#[derive(Clone, Copy, Debug, PartialEq, Eq, Structural)]
pub enum RequestorMode {
    /// User mode, the only mode that is admitted.
    UserMode,
    /// Any other mode.
    KernelMode,
}

/// Every requestor mode.
pub const ALL_REQUESTOR_MODES: [RequestorMode; 2] = [
    RequestorMode::UserMode,
    RequestorMode::KernelMode,
];

/// What a create is decided by.
#[derive(Clone, Copy, Debug, PartialEq, Eq, Structural)]
pub struct CreateRequest {
    /// The mode the create was made from.
    pub mode: RequestorMode,
    /// The file name is empty: the create opens the root.
    pub file_name_empty: bool,
    /// The create names no related file object.
    pub related_file_object_null: bool,
    /// The per-file context was allocated and referenced.
    pub context_alloc_ok: bool,
}

/// What a create completes with.
#[derive(Clone, Copy, Debug, PartialEq, Eq, Structural)]
pub struct CreateOutcome {
    /// The completion status.
    pub status: i32,
    /// The completion information.
    pub information: usize,
    /// Whether the per-file context is installed.
    pub context_installed: bool,
}

/// The status a create completes with. The rules are tried in this order: the
/// mode, the name, the allocation.
pub open spec fn create_status(request: CreateRequest) -> i32 {
    if request.mode != RequestorMode::UserMode {
        ACCESS_DENIED
    } else if !request.file_name_empty || !request.related_file_object_null {
        OBJECT_NAME_NOT_FOUND
    } else if !request.context_alloc_ok {
        INSUFFICIENT_RESOURCES
    } else {
        SUCCESS
    }
}

/// Decide a create. No create reports information, and only a successful one
/// installs the context.
pub fn decide_create(request: CreateRequest) -> (outcome: CreateOutcome)
    ensures
        outcome.status == create_status(request),
        outcome.information == 0,
        outcome.context_installed == (create_status(request) == SUCCESS),
{
    let status = if request.mode != RequestorMode::UserMode {
        ACCESS_DENIED
    } else if !request.file_name_empty || !request.related_file_object_null {
        OBJECT_NAME_NOT_FOUND
    } else if !request.context_alloc_ok {
        INSUFFICIENT_RESOURCES
    } else {
        SUCCESS
    };
    CreateOutcome { status, information: 0, context_installed: status == SUCCESS }
}

/// Exactly one create succeeds: a user-mode root open whose context was
/// allocated.
pub proof fn law_one_create_succeeds(request: CreateRequest)
    ensures
        create_status(request) == SUCCESS <==> request == (CreateRequest {
            mode: RequestorMode::UserMode,
            file_name_empty: true,
            related_file_object_null: true,
            context_alloc_ok: true,
        }),
{
}

/// The mode decides before anything else: a create from another mode is denied
/// whatever it names and whatever was allocated.
pub proof fn law_mode_decides_first(first: CreateRequest, second: CreateRequest)
    requires
        first.mode != RequestorMode::UserMode,
        second.mode == first.mode,
    ensures
        create_status(first) == ACCESS_DENIED,
        create_status(second) == create_status(first),
{
}

/// The create with these four inputs.
fn cell(
    mode: RequestorMode,
    file_name_empty: bool,
    related_file_object_null: bool,
    context_alloc_ok: bool,
) -> (request: CreateRequest)
    ensures
        request == (CreateRequest {
            mode,
            file_name_empty,
            related_file_object_null,
            context_alloc_ok,
        }),
{
    CreateRequest { mode, file_name_empty, related_file_object_null, context_alloc_ok }
}

/// Where a create stands in [`all_create_requests`].
pub open spec fn create_place(request: CreateRequest) -> int {
    (if request.mode == RequestorMode::UserMode {
        0int
    } else {
        8
    }) + (if request.file_name_empty {
        0int
    } else {
        4
    }) + (if request.related_file_object_null {
        0int
    } else {
        2
    }) + (if request.context_alloc_ok {
        0int
    } else {
        1
    })
}

/// Every create there is, each once: two modes and three truth values.
pub fn all_create_requests() -> (all: [CreateRequest; 16])
    ensures
        forall|i: int| 0 <= i < 16 ==> create_place(#[trigger] all@[i]) == i,
        forall|request: CreateRequest|
            0 <= #[trigger] create_place(request) < 16 && all@[create_place(request)] == request,
{
    [
        cell(RequestorMode::UserMode, true, true, true),
        cell(RequestorMode::UserMode, true, true, false),
        cell(RequestorMode::UserMode, true, false, true),
        cell(RequestorMode::UserMode, true, false, false),
        cell(RequestorMode::UserMode, false, true, true),
        cell(RequestorMode::UserMode, false, true, false),
        cell(RequestorMode::UserMode, false, false, true),
        cell(RequestorMode::UserMode, false, false, false),
        cell(RequestorMode::KernelMode, true, true, true),
        cell(RequestorMode::KernelMode, true, true, false),
        cell(RequestorMode::KernelMode, true, false, true),
        cell(RequestorMode::KernelMode, true, false, false),
        cell(RequestorMode::KernelMode, false, true, true),
        cell(RequestorMode::KernelMode, false, true, false),
        cell(RequestorMode::KernelMode, false, false, true),
        cell(RequestorMode::KernelMode, false, false, false),
    ]
}

/// The control requests. The set is closed.
#[derive(Clone, Copy, Debug, PartialEq, Eq, Structural)]
pub enum ControlIoctl {
    /// `IOCTL_FSRING_SETUP`, function `0x800`.
    Setup,
    /// `IOCTL_FSRING_ENTER`, function `0x801`.
    Enter,
    /// `IOCTL_FSRING_ATTACH`, function `0x802`.
    Attach,
    /// `IOCTL_FSRING_DONATE_BACKING`, function `0x803`.
    DonateBacking,
    /// `IOCTL_FSRING_DONATE_SECURITY_CONTEXT`, function `0x804`.
    DonateSecurityContext,
    /// `IOCTL_FSRING_DETACH`, function `0x805`.
    Detach,
    /// `IOCTL_FSRING_RETIRE_MOUNT`, function `0x806`.
    RetireMount,
}

/// Every control request.
pub const ALL_CONTROL_IOCTLS: [ControlIoctl; 7] = [
    ControlIoctl::Setup,
    ControlIoctl::Enter,
    ControlIoctl::Attach,
    ControlIoctl::DonateBacking,
    ControlIoctl::DonateSecurityContext,
    ControlIoctl::Detach,
    ControlIoctl::RetireMount,
];

/// The control code of a request.
pub open spec fn code_of(ioctl: ControlIoctl) -> u32 {
    match ioctl {
        ControlIoctl::Setup => IOCTL_FSRING_SETUP,
        ControlIoctl::Enter => IOCTL_FSRING_ENTER,
        ControlIoctl::Attach => IOCTL_FSRING_ATTACH,
        ControlIoctl::DonateBacking => IOCTL_FSRING_DONATE_BACKING,
        ControlIoctl::DonateSecurityContext => IOCTL_FSRING_DONATE_SECURITY_CONTEXT,
        ControlIoctl::Detach => IOCTL_FSRING_DETACH,
        ControlIoctl::RetireMount => IOCTL_FSRING_RETIRE_MOUNT,
    }
}

/// The function number of a request.
pub open spec fn function_of(ioctl: ControlIoctl) -> u32 {
    match ioctl {
        ControlIoctl::Setup => 0x800,
        ControlIoctl::Enter => 0x801,
        ControlIoctl::Attach => 0x802,
        ControlIoctl::DonateBacking => 0x803,
        ControlIoctl::DonateSecurityContext => 0x804,
        ControlIoctl::Detach => 0x805,
        ControlIoctl::RetireMount => 0x806,
    }
}

/// The documented name of a request.
pub open spec fn name_of(ioctl: ControlIoctl) -> Seq<char> {
    match ioctl {
        ControlIoctl::Setup => "IOCTL_FSRING_SETUP"@,
        ControlIoctl::Enter => "IOCTL_FSRING_ENTER"@,
        ControlIoctl::Attach => "IOCTL_FSRING_ATTACH"@,
        ControlIoctl::DonateBacking => "IOCTL_FSRING_DONATE_BACKING"@,
        ControlIoctl::DonateSecurityContext => "IOCTL_FSRING_DONATE_SECURITY_CONTEXT"@,
        ControlIoctl::Detach => "IOCTL_FSRING_DETACH"@,
        ControlIoctl::RetireMount => "IOCTL_FSRING_RETIRE_MOUNT"@,
    }
}

impl ControlIoctl {
    /// The control code of this request.
    pub fn code(self) -> (code: u32)
        ensures
            code == code_of(self),
    {
        match self {
            ControlIoctl::Setup => IOCTL_FSRING_SETUP,
            ControlIoctl::Enter => IOCTL_FSRING_ENTER,
            ControlIoctl::Attach => IOCTL_FSRING_ATTACH,
            ControlIoctl::DonateBacking => IOCTL_FSRING_DONATE_BACKING,
            ControlIoctl::DonateSecurityContext => IOCTL_FSRING_DONATE_SECURITY_CONTEXT,
            ControlIoctl::Detach => IOCTL_FSRING_DETACH,
            ControlIoctl::RetireMount => IOCTL_FSRING_RETIRE_MOUNT,
        }
    }

    /// The documented name of this request.
    pub fn doc_name(self) -> (name: &'static str)
        ensures
            name@ == name_of(self),
    {
        match self {
            ControlIoctl::Setup => "IOCTL_FSRING_SETUP",
            ControlIoctl::Enter => "IOCTL_FSRING_ENTER",
            ControlIoctl::Attach => "IOCTL_FSRING_ATTACH",
            ControlIoctl::DonateBacking => "IOCTL_FSRING_DONATE_BACKING",
            ControlIoctl::DonateSecurityContext => "IOCTL_FSRING_DONATE_SECURITY_CONTEXT",
            ControlIoctl::Detach => "IOCTL_FSRING_DETACH",
            ControlIoctl::RetireMount => "IOCTL_FSRING_RETIRE_MOUNT",
        }
    }

    /// The function number of this request.
    pub fn function(self) -> (function: u32)
        ensures
            function == function_of(self),
    {
        match self {
            ControlIoctl::Setup => 0x800,
            ControlIoctl::Enter => 0x801,
            ControlIoctl::Attach => 0x802,
            ControlIoctl::DonateBacking => 0x803,
            ControlIoctl::DonateSecurityContext => 0x804,
            ControlIoctl::Detach => 0x805,
            ControlIoctl::RetireMount => 0x806,
        }
    }
}

/// The request a control code names, if it names one.
pub open spec fn named_by(code: u32) -> Option<ControlIoctl> {
    if exists|ioctl: ControlIoctl| code_of(ioctl) == code {
        Some(choose|ioctl: ControlIoctl| code_of(ioctl) == code)
    } else {
        None
    }
}

/// Map a control code to its request, or refuse it: exactly the registered codes
/// are admitted.
pub fn demux(code: u32) -> (ioctl: Option<ControlIoctl>)
    ensures
        ioctl == named_by(code),
{
    proof {
        law_demux_inverts_code(ControlIoctl::Setup);
        law_demux_inverts_code(ControlIoctl::Enter);
        law_demux_inverts_code(ControlIoctl::Attach);
        law_demux_inverts_code(ControlIoctl::DonateBacking);
        law_demux_inverts_code(ControlIoctl::DonateSecurityContext);
        law_demux_inverts_code(ControlIoctl::Detach);
        law_demux_inverts_code(ControlIoctl::RetireMount);
    }
    if code == IOCTL_FSRING_SETUP {
        return Some(ControlIoctl::Setup);
    }
    if code == IOCTL_FSRING_ENTER {
        return Some(ControlIoctl::Enter);
    }
    if code == IOCTL_FSRING_ATTACH {
        return Some(ControlIoctl::Attach);
    }
    if code == IOCTL_FSRING_DONATE_BACKING {
        return Some(ControlIoctl::DonateBacking);
    }
    if code == IOCTL_FSRING_DONATE_SECURITY_CONTEXT {
        return Some(ControlIoctl::DonateSecurityContext);
    }
    if code == IOCTL_FSRING_DETACH {
        return Some(ControlIoctl::Detach);
    }
    if code == IOCTL_FSRING_RETIRE_MOUNT {
        return Some(ControlIoctl::RetireMount);
    }
    None
}

/// No two requests share a code, a function number or a name.
pub proof fn law_codes_name_one_request(first: ControlIoctl, second: ControlIoctl)
    ensures
        code_of(first) == code_of(second) ==> first == second,
        function_of(first) == function_of(second) ==> first == second,
        name_of(first) == name_of(second) ==> first == second,
{
    reveal_strlit("IOCTL_FSRING_SETUP");
    reveal_strlit("IOCTL_FSRING_ENTER");
    reveal_strlit("IOCTL_FSRING_ATTACH");
    reveal_strlit("IOCTL_FSRING_DONATE_BACKING");
    reveal_strlit("IOCTL_FSRING_DONATE_SECURITY_CONTEXT");
    reveal_strlit("IOCTL_FSRING_DETACH");
    reveal_strlit("IOCTL_FSRING_RETIRE_MOUNT");
    if name_of(first) == name_of(second) {
        assert(name_of(first).len() == name_of(second).len());
        assert(name_of(first)[13] == name_of(second)[13]);
        assert(name_of(first)[14] == name_of(second)[14]);
        assert(name_of(first)[15] == name_of(second)[15]);
    }
}

/// Demultiplexing a request's code gives the request back.
pub proof fn law_demux_inverts_code(ioctl: ControlIoctl)
    ensures
        named_by(code_of(ioctl)) == Some(ioctl),
{
    law_codes_name_one_request(
        ioctl,
        choose|other: ControlIoctl| code_of(other) == code_of(ioctl),
    );
}

/// Every code is the device type, the access, the function number and the
/// transfer method put together.
pub proof fn law_code_is_composed(ioctl: ControlIoctl)
    ensures
        code_of(ioctl) == FILE_DEVICE_UNKNOWN * 0x1_0000 + CONTROL_IOCTL_ACCESS * 0x4000
            + function_of(ioctl) * 4 + METHOD_BUFFERED,
{
}

/// Every request is listed once, in the order of the codes.
pub proof fn law_every_ioctl_is_listed_once(ioctl: ControlIoctl)
    ensures
        0 <= function_of(ioctl) - 0x800 < 7,
        ALL_CONTROL_IOCTLS@[function_of(ioctl) - 0x800] == ioctl,
        forall|i: int|
            0 <= i < 7 ==> function_of(#[trigger] ALL_CONTROL_IOCTLS@[i]) - 0x800 == i,
{
}

/// Who made a request. It can be compared and nothing more.
#[derive(Clone, Copy, Debug, PartialEq, Eq, Structural)]
pub struct RequestorId(pub u64);

/// Permission to operate on a control handle. Only [`authorize`] grants it.
#[derive(Debug, PartialEq, Eq)]
pub struct AdmittedHandle {
    identity: RequestorId,
}

impl View for AdmittedHandle {
    type V = RequestorId;

    closed spec fn view(&self) -> RequestorId {
        self.identity
    }
}

impl AdmittedHandle {
    /// Who the permission was granted to.
    pub fn identity(&self) -> (identity: RequestorId)
        ensures
            identity == self@,
    {
        self.identity
    }
}

/// The answer to an operation on a control handle. A refusal carries nothing.
#[derive(Debug, PartialEq, Eq)]
pub enum Authorization {
    /// The operation may go on.
    Admitted(AdmittedHandle),
    /// The operation is denied.
    Refused,
}

impl Authorization {
    /// The status this answer stands for.
    pub fn status(&self) -> (status: i32)
        ensures
            status == if self is Admitted {
                SUCCESS
            } else {
                ACCESS_DENIED
            },
    {
        match self {
            Authorization::Admitted(_) => SUCCESS,
            Authorization::Refused => ACCESS_DENIED,
        }
    }
}

/// An operation is authorized when it comes from user mode and from the process
/// that created the handle.
pub open spec fn authorized(
    mode: RequestorMode,
    captured: RequestorId,
    current: RequestorId,
) -> bool {
    mode == RequestorMode::UserMode && captured == current
}

/// Authorize an operation on a control handle. A handle presented from another
/// process is refused, duplicated or inherited as it may be.
pub fn authorize(
    mode: RequestorMode,
    captured: RequestorId,
    current: RequestorId,
) -> (authorization: Authorization)
    ensures
        match authorization {
            Authorization::Admitted(handle) => authorized(mode, captured, current) && handle@
                == captured,
            Authorization::Refused => !authorized(mode, captured, current),
        },
{
    if mode != RequestorMode::UserMode {
        return Authorization::Refused;
    }
    if captured.0 != current.0 {
        return Authorization::Refused;
    }
    Authorization::Admitted(AdmittedHandle { identity: captured })
}

/// What one control request is decided by.
#[derive(Clone, Copy, Debug, PartialEq, Eq)]
pub struct ControlIoctlRequest<'a> {
    /// The mode the request was made from.
    pub mode: RequestorMode,
    /// Who created the handle.
    pub captured: RequestorId,
    /// Who makes the request.
    pub current: RequestorId,
    /// The control code.
    pub code: u32,
    /// The body of the request.
    pub input: &'a [u8],
}

/// What becomes of one control request.
#[derive(Clone, Copy, Debug, PartialEq, Eq, Structural)]
pub enum ControlDispatchDecision {
    /// Complete the request with this status.
    Complete(i32),
    /// The code is no control code. The marshalling layer knows the status.
    Unknown,
    /// An authorized setup, which the setup adapter carries out and completes.
    DispatchSetup,
    /// An authorized enter, which the enter adapter carries out and completes.
    DispatchEnter,
}

impl ControlDispatchDecision {
    /// The completion information of every decision that completes by itself.
    pub fn information(self) -> (information: usize)
        ensures
            information == 0,
    {
        0
    }

    /// Does this decision complete the request by itself?
    pub fn is_synchronous(self) -> (answer: bool)
        ensures
            answer == (self is Complete || self is Unknown),
    {
        match self {
            ControlDispatchDecision::Complete(_) => true,
            ControlDispatchDecision::Unknown => true,
            ControlDispatchDecision::DispatchSetup => false,
            ControlDispatchDecision::DispatchEnter => false,
        }
    }
}

/// What becomes of an authorized request.
pub open spec fn dispatched(code: u32, input: Seq<u8>) -> ControlDispatchDecision {
    match named_by(code) {
        None => ControlDispatchDecision::Unknown,
        Some(ControlIoctl::Setup) => ControlDispatchDecision::DispatchSetup,
        Some(ControlIoctl::Enter) => ControlDispatchDecision::DispatchEnter,
        Some(ControlIoctl::DonateSecurityContext) => ControlDispatchDecision::Complete(
            match crate::abi::control::donation_error(input) {
                Some(error) => error.completes_with(),
                None => NOT_SUPPORTED,
            },
        ),
        Some(_) => ControlDispatchDecision::Complete(NOT_SUPPORTED),
    }
}

/// What becomes of a request.
pub open spec fn control_decision(request: ControlIoctlRequest<'_>) -> ControlDispatchDecision {
    if authorized(request.mode, request.captured, request.current) {
        dispatched(request.code, request.input@)
    } else {
        ControlDispatchDecision::Complete(ACCESS_DENIED)
    }
}

/// Decide one control request. Authorization comes first; only an authorized
/// request is demultiplexed, and only a donation's body is read.
pub fn decide_control_ioctl(request: ControlIoctlRequest<'_>) -> (decision: ControlDispatchDecision)
    ensures
        decision == control_decision(request),
        ({
            let authorized = request.mode == RequestorMode::UserMode && request.captured
                == request.current;
            &&& decision == ControlDispatchDecision::DispatchSetup <==> authorized && request.code
                == IOCTL_FSRING_SETUP
            &&& decision == ControlDispatchDecision::DispatchEnter <==> authorized && request.code
                == IOCTL_FSRING_ENTER
        }),
{
    proof {
        law_setup_and_enter_are_dispatched(request);
    }
    match authorize(request.mode, request.captured, request.current) {
        Authorization::Refused => {
            return ControlDispatchDecision::Complete(ACCESS_DENIED);
        },
        Authorization::Admitted(_) => {},
    }
    let ioctl = match demux(request.code) {
        Some(ioctl) => ioctl,
        None => {
            return ControlDispatchDecision::Unknown;
        },
    };
    match ioctl {
        ControlIoctl::Setup => ControlDispatchDecision::DispatchSetup,
        ControlIoctl::Enter => ControlDispatchDecision::DispatchEnter,
        ControlIoctl::DonateSecurityContext => {
            let status = match validate_donate_security_context_v1(request.input) {
                Ok(()) => NOT_SUPPORTED,
                Err(error) => error.status(),
            };
            ControlDispatchDecision::Complete(status)
        },
        _ => ControlDispatchDecision::Complete(NOT_SUPPORTED),
    }
}

/// A requestor that is not authorized learns nothing: whatever code and body it
/// sends, it gets the same denial, so it sees neither whether a code is
/// registered nor whether a body is well formed.
pub proof fn law_refusal_reveals_nothing(
    first: ControlIoctlRequest<'_>,
    second: ControlIoctlRequest<'_>,
)
    requires
        !authorized(first.mode, first.captured, first.current),
        !authorized(second.mode, second.captured, second.current),
    ensures
        control_decision(first) == control_decision(second),
        control_decision(first) == ControlDispatchDecision::Complete(ACCESS_DENIED),
{
}

/// Only an authorized request reaches an adapter.
pub proof fn law_adapters_see_authorized_requests(request: ControlIoctlRequest<'_>)
    ensures
        control_decision(request) is DispatchSetup ==> authorized(
            request.mode,
            request.captured,
            request.current,
        ) && request.code == IOCTL_FSRING_SETUP,
        control_decision(request) is DispatchEnter ==> authorized(
            request.mode,
            request.captured,
            request.current,
        ) && request.code == IOCTL_FSRING_ENTER,
{
}

/// How many bytes of a control request are copied before its body is checked:
/// none below the header, else what the caller gave, up to one byte past the
/// known size.
pub open spec fn snapshot_len(input_length: usize, known_size: usize) -> Option<int> {
    if input_length < CONTROL_HEADER_BYTES {
        None
    } else if input_length <= known_size {
        Some(input_length as int)
    } else {
        Some(known_size + 1)
    }
}

/// How many bytes of a control request to copy before its body is checked. One
/// byte past the known size is enough for the check to see a wrong length, and
/// bounds the copy.
pub fn control_request_snapshot_len(input_length: usize, known_size: usize) -> (length: Option<
    usize,
>)
    ensures
        match length {
            Some(bytes) => snapshot_len(input_length, known_size) == Some(bytes as int),
            None => snapshot_len(input_length, known_size) is None,
        },
{
    if input_length < CONTROL_HEADER_BYTES {
        return None;
    }
    let cap = known_size.saturating_add(1);
    Some(
        if input_length < cap {
            input_length
        } else {
            cap
        },
    )
}

/// The copy shows the length: it never runs past the caller's bytes nor more
/// than one byte past the known size, and it has the known size exactly when the
/// request has.
pub proof fn law_snapshot_shows_the_length(input_length: usize, known_size: usize)
    requires
        input_length >= CONTROL_HEADER_BYTES,
    ensures
        snapshot_len(input_length, known_size) matches Some(bytes) && bytes <= input_length && bytes
            <= known_size + 1 && (bytes == known_size <==> input_length == known_size),
{
}

/// Each refusal of a create has its own cause, and the causes go in this order: a
/// mode that is not the user's, a name or a related file, and a context that was
/// not allocated.
pub proof fn law_create_refusals_go_in_order(request: CreateRequest)
    ensures
        ({
            let status = create_status(request);
            let user = request.mode == RequestorMode::UserMode;
            let root = request.file_name_empty && request.related_file_object_null;
            &&& status == ACCESS_DENIED <==> !user
            &&& status == OBJECT_NAME_NOT_FOUND <==> user && !root
            &&& status == INSUFFICIENT_RESOURCES <==> user && root && !request.context_alloc_ok
            &&& status == SUCCESS <==> user && root && request.context_alloc_ok
        }),
{
}

/// Only the process that created a handle, and only from user mode, may use it.
pub proof fn law_handle_is_its_creators(
    mode: RequestorMode,
    captured: RequestorId,
    current: RequestorId,
)
    ensures
        authorized(mode, captured, current) <==> mode == RequestorMode::UserMode && captured.0
            == current.0,
        !authorized(RequestorMode::KernelMode, captured, current),
        authorized(RequestorMode::UserMode, captured, captured),
{
}

/// A code names a request exactly where it is the request's code, and the codes
/// are these seven.
pub proof fn law_codes_are_these_seven(code: u32)
    ensures
        named_by(code) == Some(ControlIoctl::Setup) <==> code == IOCTL_FSRING_SETUP,
        named_by(code) == Some(ControlIoctl::Enter) <==> code == IOCTL_FSRING_ENTER,
        named_by(code) == Some(ControlIoctl::Attach) <==> code == IOCTL_FSRING_ATTACH,
        named_by(code) == Some(ControlIoctl::DonateBacking) <==> code
            == IOCTL_FSRING_DONATE_BACKING,
        named_by(code) == Some(ControlIoctl::DonateSecurityContext) <==> code
            == IOCTL_FSRING_DONATE_SECURITY_CONTEXT,
        named_by(code) == Some(ControlIoctl::Detach) <==> code == IOCTL_FSRING_DETACH,
        named_by(code) == Some(ControlIoctl::RetireMount) <==> code == IOCTL_FSRING_RETIRE_MOUNT,
        named_by(code) is None <==> !(0x22_e000 <= code <= 0x22_e018 && code % 4 == 0),
{
    law_demux_inverts_code(ControlIoctl::Setup);
    law_demux_inverts_code(ControlIoctl::Enter);
    law_demux_inverts_code(ControlIoctl::Attach);
    law_demux_inverts_code(ControlIoctl::DonateBacking);
    law_demux_inverts_code(ControlIoctl::DonateSecurityContext);
    law_demux_inverts_code(ControlIoctl::Detach);
    law_demux_inverts_code(ControlIoctl::RetireMount);
    if named_by(code) is Some {
        let ioctl = choose|ioctl: ControlIoctl| code_of(ioctl) == code;
        assert(code_of(ioctl) == code);
    }
}

/// An authorized setup reaches the setup adapter and an authorized enter the enter
/// adapter, whatever their bodies hold, and nothing else reaches either.
pub proof fn law_setup_and_enter_are_dispatched(request: ControlIoctlRequest<'_>)
    ensures
        ({
            let authorized = request.mode == RequestorMode::UserMode && request.captured
                == request.current;
            let decision = control_decision(request);
            &&& decision == ControlDispatchDecision::DispatchSetup <==> authorized && request.code
                == IOCTL_FSRING_SETUP
            &&& decision == ControlDispatchDecision::DispatchEnter <==> authorized && request.code
                == IOCTL_FSRING_ENTER
        }),
{
    law_codes_are_these_seven(request.code);
}

/// Only a donation's body is read: two authorized requests with one other code are
/// decided alike, whatever their bodies hold.
pub proof fn law_only_a_donation_is_read(
    first: ControlIoctlRequest<'_>,
    second: ControlIoctlRequest<'_>,
)
    requires
        first.mode == second.mode,
        first.captured == second.captured,
        first.current == second.current,
        first.code == second.code,
        first.code != IOCTL_FSRING_DONATE_SECURITY_CONTEXT,
    ensures
        control_decision(first) == control_decision(second),
{
    law_codes_are_these_seven(first.code);
}

/// What an authorized request that reaches no adapter is answered: an unknown code
/// is left to the caller, a donation that is not well formed is told its fault,
/// and a well-formed donation and every other known request are not supported. An
/// unauthorized request is denied.
pub proof fn law_the_rest_is_answered_at_once(request: ControlIoctlRequest<'_>)
    ensures
        ({
            let authorized = request.mode == RequestorMode::UserMode && request.captured
                == request.current;
            let known = 0x22_e000 <= request.code <= 0x22_e018 && request.code % 4 == 0;
            let adapted = request.code == IOCTL_FSRING_SETUP || request.code == IOCTL_FSRING_ENTER;
            let donates = request.code == IOCTL_FSRING_DONATE_SECURITY_CONTEXT;
            let fault = crate::abi::control::donation_error(request.input@);
            let decision = control_decision(request);
            &&& !authorized ==> decision == ControlDispatchDecision::Complete(ACCESS_DENIED)
            &&& decision == ControlDispatchDecision::Unknown <==> authorized && !known
            &&& authorized && known && !adapted && !(donates && fault is Some) ==> decision
                == ControlDispatchDecision::Complete(NOT_SUPPORTED)
            &&& authorized && donates && fault is Some ==> decision
                == ControlDispatchDecision::Complete(fault->0.completes_with())
        }),
{
    law_codes_are_these_seven(request.code);
}

/// The copy is as long as the request, or one byte longer than the known size,
/// whichever is less; below a header there is none.
pub proof fn law_snapshot_is_the_shorter(input_length: usize, known_size: usize)
    ensures
        snapshot_len(input_length, known_size) is None <==> input_length < 8,
        input_length >= 8 && input_length <= known_size + 1 ==> snapshot_len(
            input_length,
            known_size,
        ) == Some(input_length as int),
        input_length >= 8 && input_length > known_size ==> snapshot_len(input_length, known_size)
            == Some(known_size + 1),
{
}

/// What a control request is decided, whatever its body: an unauthorized one is
/// refused; an authorized SETUP or ENTER goes to its adapter and nothing else does;
/// an unknown code is unknown; a malformed donation is refused for what is wrong
/// with it; every other is not supported.
pub proof fn law_request_is_decided_by_its_code(
    request: ControlIoctlRequest<'_>,
    decision: ControlDispatchDecision,
)
    requires
        call_ensures(decide_control_ioctl, (request,), decision),
    ensures
        ({
            let authorized = request.mode == RequestorMode::UserMode && request.captured
                == request.current;
            let known = 0x22_e000 <= request.code <= 0x22_e018 && request.code % 4 == 0;
            let donates = request.code == 0x22_e010;
            let fault = crate::abi::control::donation_error(request.input@);
            &&& decision == ControlDispatchDecision::DispatchSetup <==> authorized && request.code
                == 0x22_e000
            &&& decision == ControlDispatchDecision::DispatchEnter <==> authorized && request.code
                == 0x22_e004
            &&& decision == ControlDispatchDecision::Unknown <==> authorized && !known
            &&& !authorized ==> decision == ControlDispatchDecision::Complete(ACCESS_DENIED)
            &&& authorized && donates && fault is Some ==> decision
                == ControlDispatchDecision::Complete(fault->0.completes_with())
            &&& authorized && known && request.code != 0x22_e000 && request.code != 0x22_e004 && !(
            donates && fault is Some) ==> decision == ControlDispatchDecision::Complete(
                NOT_SUPPORTED,
            )
        }),
{
    law_the_rest_is_answered_at_once(request);
    law_setup_and_enter_are_dispatched(request);
}

/// The body of a request is read for a donation and for nothing else: two requests
/// of one requestor and one other code are decided alike, whatever they carry.
pub proof fn law_body_of_the_rest_decides_nothing(
    first: ControlIoctlRequest<'_>,
    second: ControlIoctlRequest<'_>,
    decision: ControlDispatchDecision,
    other: ControlDispatchDecision,
)
    requires
        call_ensures(decide_control_ioctl, (first,), decision),
        call_ensures(decide_control_ioctl, (second,), other),
        first.mode == second.mode,
        first.captured == second.captured,
        first.current == second.current,
        first.code == second.code,
        first.code != 0x22_e010,
    ensures
        decision == other,
{
    law_only_a_donation_is_read(first, second);
}

/// A create succeeds exactly from user mode, of the device itself, with room for
/// its context, and installs a context exactly if it succeeds. The mode is refused
/// first, then the name, then the want of room.
pub proof fn law_create_installs_what_it_admits(request: CreateRequest, outcome: CreateOutcome)
    requires
        call_ensures(decide_create, (request,), outcome),
    ensures
        ({
            let user = request.mode == RequestorMode::UserMode;
            let root = request.file_name_empty && request.related_file_object_null;
            &&& outcome.status == 0 <==> user && root && request.context_alloc_ok
            &&& outcome.status == ACCESS_DENIED <==> !user
            &&& outcome.status == OBJECT_NAME_NOT_FOUND <==> user && !root
            &&& outcome.status == INSUFFICIENT_RESOURCES <==> user && root
                && !request.context_alloc_ok
            &&& outcome.context_installed <==> outcome.status == 0
            &&& outcome.information == 0
        }),
{
    law_create_refusals_go_in_order(request);
}

/// A code is sorted back to the request it is the code of, and the seven codes are
/// these.
pub proof fn law_code_is_sorted_back(
    ioctl: ControlIoctl,
    code: u32,
    function: u32,
    sorted: Option<ControlIoctl>,
)
    requires
        call_ensures(ControlIoctl::code, (ioctl,), code),
        call_ensures(ControlIoctl::function, (ioctl,), function),
        call_ensures(demux, (code,), sorted),
    ensures
        sorted == Some(ioctl),
        ioctl == ControlIoctl::Setup ==> code == 0x22_e000 && function == 0x800,
        ioctl == ControlIoctl::Enter ==> code == 0x22_e004 && function == 0x801,
        ioctl == ControlIoctl::Attach ==> code == 0x22_e008 && function == 0x802,
        ioctl == ControlIoctl::DonateBacking ==> code == 0x22_e00c && function == 0x803,
        ioctl == ControlIoctl::DonateSecurityContext ==> code == 0x22_e010 && function == 0x804,
        ioctl == ControlIoctl::Detach ==> code == 0x22_e014 && function == 0x805,
        ioctl == ControlIoctl::RetireMount ==> code == 0x22_e018 && function == 0x806,
        code == 0x22_e000 + 4 * (function - 0x800),
{
    law_demux_inverts_code(ioctl);
}

/// A code that is none of the seven names no request.
pub proof fn law_other_codes_name_nothing(code: u32, sorted: Option<ControlIoctl>)
    requires
        call_ensures(demux, (code,), sorted),
    ensures
        sorted is None <==> !(0x22_e000 <= code <= 0x22_e018 && code % 4 == 0),
{
    law_codes_are_these_seven(code);
}

/// A handle serves exactly the user-mode requestor it was created by, and what is
/// admitted is that requestor. A refusal is told as access denied.
pub proof fn law_handle_serves_its_creator(
    mode: RequestorMode,
    captured: RequestorId,
    current: RequestorId,
    authorization: Authorization,
    status: i32,
)
    requires
        call_ensures(authorize, (mode, captured, current), authorization),
        call_ensures(Authorization::status, (&authorization,), status),
    ensures
        authorization is Admitted <==> mode == RequestorMode::UserMode && captured.0 == current.0,
        authorization matches Authorization::Admitted(handle) ==> handle@ == captured,
        status == 0 <==> authorization is Admitted,
        status == ACCESS_DENIED <==> authorization is Refused,
{
    law_handle_is_its_creators(mode, captured, current);
}

/// A request that an adapter takes is not complete when it is decided; every other
/// is. No decision carries information.
pub proof fn law_adapters_answer_later(
    decision: ControlDispatchDecision,
    synchronous: bool,
    information: usize,
)
    requires
        call_ensures(ControlDispatchDecision::is_synchronous, (decision,), synchronous),
        call_ensures(ControlDispatchDecision::information, (decision,), information),
    ensures
        synchronous <==> decision != ControlDispatchDecision::DispatchSetup && decision
            != ControlDispatchDecision::DispatchEnter,
        information == 0,
{
}

/// A snapshot takes the whole request, but of one that is longer than what is known
/// only one byte past that. Less than a header is not taken at all.
pub proof fn law_snapshot_takes_the_shorter(
    input_length: usize,
    known_size: usize,
    length: Option<usize>,
)
    requires
        call_ensures(control_request_snapshot_len, (input_length, known_size), length),
    ensures
        length is None <==> input_length < 8,
        length matches Some(bytes) ==> if input_length <= known_size {
            bytes == input_length
        } else {
            bytes == known_size + 1
        },
{
    law_snapshot_is_the_shorter(input_length, known_size);
}

/// Every create is listed once, at the number its four answers make.
pub proof fn law_every_create_is_listed_once(all: [CreateRequest; 16], request: CreateRequest)
    requires
        call_ensures(all_create_requests, (), all),
    ensures
        exists|i: int| 0 <= i < 16 && #[trigger] all@[i] == request,
        forall|i: int, j: int| 0 <= i < j < 16 ==> #[trigger] all@[i] != #[trigger] all@[j],
        all@[0] == (CreateRequest {
            mode: RequestorMode::UserMode,
            file_name_empty: true,
            related_file_object_null: true,
            context_alloc_ok: true,
        }),
        forall|i: int| 0 <= i < 8 ==> (#[trigger] all@[i]).mode == RequestorMode::UserMode,
        forall|i: int| 8 <= i < 16 ==> (#[trigger] all@[i]).mode == RequestorMode::KernelMode,
{
    assert(all@[create_place(request)] == request);
    assert forall|i: int, j: int| 0 <= i < j < 16 implies #[trigger] all@[i]
        != #[trigger] all@[j] by {
        assert(create_place(all@[i]) == i && create_place(all@[j]) == j);
    }
    assert(create_place(all@[0]) == 0);
    assert forall|i: int| 0 <= i < 8 implies (#[trigger] all@[i]).mode
        == RequestorMode::UserMode by {
        assert(create_place(all@[i]) == i);
    }
    assert forall|i: int| 8 <= i < 16 implies (#[trigger] all@[i]).mode
        == RequestorMode::KernelMode by {
        assert(create_place(all@[i]) == i);
    }
}

/// A request's name in the docs is its own, and no other's.
pub proof fn law_names_are_told_apart(
    one: ControlIoctl,
    other: ControlIoctl,
    first: &'static str,
    second: &'static str,
)
    requires
        call_ensures(ControlIoctl::doc_name, (one,), first),
        call_ensures(ControlIoctl::doc_name, (other,), second),
    ensures
        first@ == second@ <==> one == other,
        one == ControlIoctl::Setup ==> first@ == "IOCTL_FSRING_SETUP"@,
        one == ControlIoctl::Enter ==> first@ == "IOCTL_FSRING_ENTER"@,
        one == ControlIoctl::Attach ==> first@ == "IOCTL_FSRING_ATTACH"@,
        one == ControlIoctl::DonateBacking ==> first@ == "IOCTL_FSRING_DONATE_BACKING"@,
        one == ControlIoctl::DonateSecurityContext ==> first@
            == "IOCTL_FSRING_DONATE_SECURITY_CONTEXT"@,
        one == ControlIoctl::Detach ==> first@ == "IOCTL_FSRING_DETACH"@,
        one == ControlIoctl::RetireMount ==> first@ == "IOCTL_FSRING_RETIRE_MOUNT"@,
{
    law_codes_name_one_request(one, other);
}

} // verus!
