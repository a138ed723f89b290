//! The control device's decisions.

use fsring_core::abi::control::{
    CONTROL_IOCTL_ACCESS, FILE_DEVICE_UNKNOWN, IOCTL_FSRING_ATTACH,
    IOCTL_FSRING_DONATE_SECURITY_CONTEXT, IOCTL_FSRING_ENTER, IOCTL_FSRING_SETUP, METHOD_BUFFERED,
};
use fsring_core::abi::status;
use fsring_core::controldev::{
    all_create_requests, authorize, control_request_snapshot_len, decide_control_ioctl,
    decide_create, demux, Authorization, ControlDispatchDecision, ControlIoctl,
    ControlIoctlRequest, CreateOutcome, CreateRequest, RequestorId, RequestorMode, ALL_CONTROL_IOCTLS,
    ALL_REQUESTOR_MODES, INSUFFICIENT_RESOURCES, SUCCESS,
};

const OVERLAPPING_CELL: CreateRequest = CreateRequest {
    mode: RequestorMode::KernelMode,
    file_name_empty: false,
    related_file_object_null: false,
    context_alloc_ok: true,
};

/// The four statuses a create may complete with.
fn is_legal_create_status(candidate: i32) -> bool {
    [
        0x0000_0000u32 as i32,
        0xc000_0022u32 as i32,
        0xc000_0034u32 as i32,
        0xc000_009au32 as i32,
    ]
    .contains(&candidate)
}

#[test]
fn the_sixteen_cells_are_distinct_and_cover_the_domain() {
    let mut seen: Vec<CreateRequest> = Vec::new();
    for request in all_create_requests() {
        assert!(
            !seen.contains(&request),
            "the roster lists {request:?} twice, so the sweep covers fewer cells than it reports"
        );
        seen.push(request);
    }
    assert_eq!(seen.len(), 16);
    let mut expected = 0usize;
    for mode in ALL_REQUESTOR_MODES {
        for name in [true, false] {
            for rel in [true, false] {
                for alloc in [true, false] {
                    let cell = CreateRequest {
                        mode,
                        file_name_empty: name,
                        related_file_object_null: rel,
                        context_alloc_ok: alloc,
                    };
                    assert!(
                        all_create_requests().contains(&cell),
                        "{cell:?} is a legal input the sweep never visits"
                    );
                    expected = expected.saturating_add(1);
                }
            }
        }
    }
    assert_eq!(expected, 16, "the domain is two modes times three booleans");
}

/// Which creates a rule of the precedence refuses.
#[derive(Clone, Copy, Debug, PartialEq, Eq)]
enum RuleKind {
    NonUserMode,
    NonRootName,
    ContextAllocationFailed,
}

impl RuleKind {
    fn refuses(self, r: CreateRequest) -> bool {
        match self {
            Self::NonUserMode => !matches!(r.mode, RequestorMode::UserMode),
            Self::NonRootName => !r.file_name_empty || !r.related_file_object_null,
            Self::ContextAllocationFailed => !r.context_alloc_ok,
        }
    }
}

/// The precedence of the three refusals, with the status each completes with.
const PRECEDENCE: [(RuleKind, i32); 3] = [
    (RuleKind::NonUserMode, 0xc000_0022u32 as i32),
    (RuleKind::NonRootName, 0xc000_0034u32 as i32),
    (RuleKind::ContextAllocationFailed, 0xc000_009au32 as i32),
];

/// Decide a create by applying a precedence in its order.
fn oracle_from(rules: &[(RuleKind, i32)], request: CreateRequest) -> CreateOutcome {
    for (kind, status) in rules {
        if kind.refuses(request) {
            return CreateOutcome {
                status: *status,
                information: 0,
                context_installed: false,
            };
        }
    }
    CreateOutcome {
        status: SUCCESS,
        information: 0,
        context_installed: true,
    }
}

fn oracle_create(request: CreateRequest) -> CreateOutcome {
    oracle_from(&PRECEDENCE, request)
}

#[test]
fn decide_create_agrees_with_the_oracle_on_every_cell() {
    assert_eq!(all_create_requests().len(), 16, "the domain is four booleans");
    let mut cells = 0usize;
    for request in all_create_requests() {
        cells = cells.saturating_add(1);
        assert_eq!(
            decide_create(request),
            oracle_create(request),
            "cell {request:?}"
        );
    }
    assert_eq!(cells, 16);
}

#[test]
fn the_order_of_the_rules_decides_the_overlapping_cell() {
    let [mode, name, alloc] = PRECEDENCE;
    let reordered = [name, mode, alloc];
    assert_eq!(
        oracle_from(&reordered, OVERLAPPING_CELL).status,
        status::OBJECT_NAME_NOT_FOUND
    );
    assert_eq!(
        oracle_create(OVERLAPPING_CELL).status,
        status::ACCESS_DENIED,
        "as written, the first rule wins the overlapping cell"
    );
}

#[test]
fn every_outcome_is_a_legal_create_status() {
    for request in all_create_requests() {
        let outcome = decide_create(request);
        assert!(
            is_legal_create_status(outcome.status),
            "{:#010x} is not a legal CREATE status ({request:?})",
            outcome.status
        );
    }
}

#[test]
fn every_failure_reports_zero_information_and_installs_nothing() {
    let mut failures = 0usize;
    let mut successes = 0usize;
    for request in all_create_requests() {
        let outcome = decide_create(request);
        assert_eq!(
            outcome.information, 0);
        if outcome.status == SUCCESS {
            successes = successes.saturating_add(1);
            assert!(
                outcome.context_installed,
                "the success installs the context"
            );
        } else {
            failures = failures.saturating_add(1);
            assert!(!outcome.context_installed);
        }
    }
    assert_eq!(successes, 1, "exactly one cell succeeds");
    assert_eq!(failures, 15);
}

#[test]
fn the_overlapping_cell_resolves_to_rule_one() {
    assert!(
        all_create_requests().contains(&OVERLAPPING_CELL),
        "the overlapping cell must be in the swept domain"
    );
    assert_eq!(decide_create(OVERLAPPING_CELL).status, status::ACCESS_DENIED);
}

#[test]
fn every_outcome_is_reached() {
    let mut access_denied = false;
    let mut name_not_found = false;
    let mut insufficient = false;
    let mut success = false;
    for request in all_create_requests() {
        let s = decide_create(request).status;
        if s == status::ACCESS_DENIED {
            access_denied = true;
        } else if s == status::OBJECT_NAME_NOT_FOUND {
            name_not_found = true;
        } else if s == INSUFFICIENT_RESOURCES {
            insufficient = true;
        } else if s == SUCCESS {
            success = true;
        }
    }
    assert!(
        access_denied && name_not_found && insufficient && success,
        "an outcome no cell reaches: denied={access_denied} name={name_not_found} insufficient={insufficient} success={success}"
    );
}

#[test]
fn demux_admits_exactly_the_seven() {
    for ioctl in ALL_CONTROL_IOCTLS {
        assert_eq!(
            demux(ioctl.code()),
            Some(ioctl),
            "{} must demux",
            ioctl.doc_name()
        );
    }
    for ioctl in ALL_CONTROL_IOCTLS {
        for delta in [1u32, 2, 3] {
            let near = ioctl.code().wrapping_add(delta);
            assert_eq!(demux(near), None, "{near:#010x} is not a control code");
        }
    }
    for probe in [0u32, 1, 0x0022_dffc, 0x0022_e01c, 0x0022_e100, u32::MAX] {
        assert_eq!(demux(probe), None, "{probe:#010x} is not a control code");
    }
}

#[test]
fn the_registry_has_no_collisions() {
    for (i, a) in ALL_CONTROL_IOCTLS.iter().enumerate() {
        for b in ALL_CONTROL_IOCTLS.iter().skip(i.saturating_add(1)) {
            assert_ne!(a.code(), b.code(), "{a:?} and {b:?} share a code");
            assert_ne!(
                a.function(),
                b.function(),
                "{a:?} and {b:?} share a function"
            );
            assert_ne!(a.doc_name(), b.doc_name());
        }
    }
}

#[test]
fn both_conditions_are_required_and_each_is_load_bearing() {
    let captured = RequestorId(0x1234);
    let other = RequestorId(0x5678);
    let ok = authorize(RequestorMode::UserMode, captured, captured);
    assert!(matches!(ok, Authorization::Admitted(_)));
    assert_eq!(ok.status(), SUCCESS);
    let Authorization::Admitted(handle) = ok else {
        panic!("just checked")
    };
    assert_eq!(handle.identity(), captured);
    assert_eq!(authorize(RequestorMode::KernelMode, captured, captured), Authorization::Refused);
    assert_eq!(authorize(RequestorMode::UserMode, captured, other), Authorization::Refused);
    assert_eq!(
        authorize(RequestorMode::KernelMode, captured, other),
        Authorization::Refused
    );
    assert_eq!(Authorization::Refused.status(), status::ACCESS_DENIED);
}

#[test]
fn a_refusal_carries_nothing() {
    let refused = Authorization::Refused;
    assert_eq!(refused.status(), status::ACCESS_DENIED);
    match refused {
        Authorization::Admitted(_) => panic!("not admitted"),
        Authorization::Refused => {}
    }
}

const IOCTL_ACCESS_DENIED: i32 = 0xc000_0022u32 as i32;
const IOCTL_INVALID_PARAMETER: i32 = 0xc000_000du32 as i32;
const IOCTL_NOT_SUPPORTED: i32 = 0xc000_00bbu32 as i32;
const IOCTL_REVISION_MISMATCH: i32 = 0xc000_0059u32 as i32;
const IOCTL_CAPTURED: RequestorId = RequestorId(0x0123_4567_89ab_cdef);
const IOCTL_OTHER_PROCESS: RequestorId = RequestorId(0xfedc_ba98_7654_3210);
const IOCTL_VALID_DONATE: [u8; 32] = [
    0x20, 0x00, 0x00, 0x00, 0x01, 0x00, 0x00, 0x00, 0x88, 0x77, 0x66, 0x55, 0x44, 0x33, 0x22, 0x11,
    0x00, 0xff, 0xee, 0xdd, 0xcc, 0xbb, 0xaa, 0x99, 0x00, 0x00, 0x00, 0x00, 0x00, 0x00, 0x00, 0x00,
];
fn ioctl_decision(
    mode: RequestorMode,
    current: RequestorId,
    code: u32,
    input: &[u8],
) -> ControlDispatchDecision {
    decide_control_ioctl(ControlIoctlRequest {
        mode,
        captured: IOCTL_CAPTURED,
        current,
        code,
        input,
    })
}
fn assert_ioctl_completion(decision: ControlDispatchDecision, expected_status: i32) {
    assert_eq!(
        decision,
        ControlDispatchDecision::Complete(expected_status),
        "completion status"
    );
    assert_eq!(
        decision.information(),
        0,
        "IOCTL Information is always zero"
    );
}

#[test]
fn ioctl_foreign_process_and_kernel_mode_are_denied_before_demux_or_validation() {
    for (mode, current, code, input) in [
        (
            RequestorMode::UserMode,
            IOCTL_OTHER_PROCESS,
            0x0022_e01c,
            &IOCTL_VALID_DONATE[..31],
        ),
        (
            RequestorMode::KernelMode,
            IOCTL_CAPTURED,
            0x0022_e01c,
            &IOCTL_VALID_DONATE[..31],
        ),
        (
            RequestorMode::UserMode,
            IOCTL_OTHER_PROCESS,
            IOCTL_FSRING_DONATE_SECURITY_CONTEXT,
            &IOCTL_VALID_DONATE[..31],
        ),
        (
            RequestorMode::KernelMode,
            IOCTL_CAPTURED,
            IOCTL_FSRING_DONATE_SECURITY_CONTEXT,
            &IOCTL_VALID_DONATE[..31],
        ),
    ] {
        assert_ioctl_completion(
            ioctl_decision(mode, current, code, input),
            IOCTL_ACCESS_DENIED,
        );
    }
}

#[test]
fn ioctl_unknown_code_is_classified_for_the_adapter() {
    let decision = ioctl_decision(
        RequestorMode::UserMode,
        IOCTL_CAPTURED,
        0x0022_e01c,
        &IOCTL_VALID_DONATE,
    );
    assert_eq!(decision, ControlDispatchDecision::Unknown);
    assert_eq!(decision.information(), 0);
}

#[test]
fn ioctl_setup_and_enter_are_handed_to_their_native_adapters() {
    assert_eq!(
        ioctl_decision(
            RequestorMode::UserMode,
            IOCTL_CAPTURED,
            IOCTL_FSRING_SETUP,
            &IOCTL_VALID_DONATE,
        ),
        ControlDispatchDecision::DispatchSetup,
    );
    assert_eq!(
        ioctl_decision(
            RequestorMode::UserMode,
            IOCTL_CAPTURED,
            IOCTL_FSRING_ENTER,
            &IOCTL_VALID_DONATE,
        ),
        ControlDispatchDecision::DispatchEnter,
    );
}

#[test]
fn an_unauthorized_setup_never_reaches_the_adapter() {
    for (mode, current) in [
        (RequestorMode::KernelMode, IOCTL_CAPTURED),
        (RequestorMode::UserMode, IOCTL_OTHER_PROCESS),
    ] {
        assert_eq!(
            ioctl_decision(
                mode,
                current,
                IOCTL_FSRING_SETUP,
                &IOCTL_VALID_DONATE,
            ),
            ControlDispatchDecision::Complete(IOCTL_ACCESS_DENIED),
        );
    }
}

#[test]
fn a_dispatch_decision_carries_no_synchronous_completion() {
    let dispatched = ioctl_decision(
        RequestorMode::UserMode,
        IOCTL_CAPTURED,
        IOCTL_FSRING_SETUP,
        &IOCTL_VALID_DONATE,
    );
    assert!(
        !dispatched.is_synchronous(),
        "an adapter-owned operation is not completed by the pure decision",
    );
    for synchronous in [
        ioctl_decision(
            RequestorMode::UserMode,
            IOCTL_CAPTURED,
            IOCTL_FSRING_ATTACH,
            &IOCTL_VALID_DONATE,
        ),
        ioctl_decision(
            RequestorMode::UserMode,
            IOCTL_CAPTURED,
            0x0022_e01c,
            &IOCTL_VALID_DONATE,
        ),
    ] {
        assert!(synchronous.is_synchronous());
        assert_eq!(synchronous.information(), 0);
    }
}

#[test]
fn ioctl_all_known_non_donation_codes_are_not_supported() {
    for ioctl in [
        ControlIoctl::Attach,
        ControlIoctl::DonateBacking,
        ControlIoctl::Detach,
        ControlIoctl::RetireMount,
    ] {
        assert_ioctl_completion(
            ioctl_decision(
                RequestorMode::UserMode,
                IOCTL_CAPTURED,
                ioctl.code(),
                &IOCTL_VALID_DONATE,
            ),
            IOCTL_NOT_SUPPORTED,
        );
    }
}

#[test]
fn ioctl_donate_short_body_is_invalid_parameter() {
    assert_ioctl_completion(
        ioctl_decision(
            RequestorMode::UserMode,
            IOCTL_CAPTURED,
            IOCTL_FSRING_DONATE_SECURITY_CONTEXT,
            &IOCTL_VALID_DONATE[..31],
        ),
        IOCTL_INVALID_PARAMETER,
    );
}

#[test]
fn ioctl_donate_wrong_abi_revision_is_revision_mismatch() {
    const WRONG_REVISION: [u8; 32] = [
        0x20, 0x00, 0x00, 0x00, 0x02, 0x00, 0x00, 0x00, 0x88, 0x77, 0x66, 0x55, 0x44, 0x33, 0x22,
        0x11, 0x00, 0xff, 0xee, 0xdd, 0xcc, 0xbb, 0xaa, 0x99, 0x00, 0x00, 0x00, 0x00, 0x00, 0x00,
        0x00, 0x00,
    ];
    assert_ioctl_completion(
        ioctl_decision(
            RequestorMode::UserMode,
            IOCTL_CAPTURED,
            IOCTL_FSRING_DONATE_SECURITY_CONTEXT,
            &WRONG_REVISION,
        ),
        IOCTL_REVISION_MISMATCH,
    );
}

#[test]
fn ioctl_donate_nonzero_flags_or_reserved_are_invalid_parameter() {
    const NONZERO_FLAGS: [u8; 32] = [
        0x20, 0x00, 0x00, 0x00, 0x01, 0x00, 0x00, 0x00, 0x88, 0x77, 0x66, 0x55, 0x44, 0x33, 0x22,
        0x11, 0x00, 0xff, 0xee, 0xdd, 0xcc, 0xbb, 0xaa, 0x99, 0x01, 0x00, 0x00, 0x00, 0x00, 0x00,
        0x00, 0x00,
    ];
    const NONZERO_RESERVED: [u8; 32] = [
        0x20, 0x00, 0x00, 0x00, 0x01, 0x00, 0x00, 0x00, 0x88, 0x77, 0x66, 0x55, 0x44, 0x33, 0x22,
        0x11, 0x00, 0xff, 0xee, 0xdd, 0xcc, 0xbb, 0xaa, 0x99, 0x00, 0x00, 0x00, 0x00, 0x01, 0x00,
        0x00, 0x00,
    ];
    for input in [&NONZERO_FLAGS[..], &NONZERO_RESERVED[..]] {
        assert_ioctl_completion(
            ioctl_decision(
                RequestorMode::UserMode,
                IOCTL_CAPTURED,
                IOCTL_FSRING_DONATE_SECURITY_CONTEXT,
                input,
            ),
            IOCTL_INVALID_PARAMETER,
        );
    }
}

#[test]
fn ioctl_well_formed_donate_body_is_not_supported() {
    assert_ioctl_completion(
        ioctl_decision(
            RequestorMode::UserMode,
            IOCTL_CAPTURED,
            IOCTL_FSRING_DONATE_SECURITY_CONTEXT,
            &IOCTL_VALID_DONATE,
        ),
        IOCTL_NOT_SUPPORTED,
    );
}

#[test]
fn ioctl_every_outcome_has_zero_information_and_no_side_effect_value() {
    let decisions = [
        ioctl_decision(
            RequestorMode::UserMode,
            IOCTL_OTHER_PROCESS,
            0x0022_e01c,
            &IOCTL_VALID_DONATE,
        ),
        ioctl_decision(
            RequestorMode::UserMode,
            IOCTL_CAPTURED,
            0x0022_e01c,
            &IOCTL_VALID_DONATE,
        ),
        ioctl_decision(
            RequestorMode::UserMode,
            IOCTL_CAPTURED,
            IOCTL_FSRING_ATTACH,
            &IOCTL_VALID_DONATE,
        ),
        ioctl_decision(
            RequestorMode::UserMode,
            IOCTL_CAPTURED,
            IOCTL_FSRING_DONATE_SECURITY_CONTEXT,
            &IOCTL_VALID_DONATE[..31],
        ),
    ];
    for decision in decisions {
        assert_eq!(decision.information(), 0);
        match decision {
            ControlDispatchDecision::Complete(_) | ControlDispatchDecision::Unknown => {}
            ControlDispatchDecision::DispatchSetup | ControlDispatchDecision::DispatchEnter => {
                panic!("no synchronous decision above is adapter-owned")
            }
        }
    }
}

#[test]
fn control_request_snapshot_len_is_bounded() {
    assert_eq!(control_request_snapshot_len(0, 160), None);
    assert_eq!(control_request_snapshot_len(7, 160), None);
    assert_eq!(control_request_snapshot_len(8, 160), Some(8));
    assert_eq!(control_request_snapshot_len(160, 160), Some(160));
    assert_eq!(control_request_snapshot_len(161, 160), Some(161));
    assert_eq!(control_request_snapshot_len(usize::MAX, 160), Some(161));
    assert_eq!(control_request_snapshot_len(8, usize::MAX), Some(8));
}

#[test]
fn every_code_is_composed_of_its_parts() {
    for ioctl in ALL_CONTROL_IOCTLS {
        let derived = (FILE_DEVICE_UNKNOWN << 16)
            | (CONTROL_IOCTL_ACCESS << 14)
            | (ioctl.function() << 2)
            | METHOD_BUFFERED;
        assert_eq!(derived, ioctl.code());
    }
    assert_eq!(ControlIoctl::RetireMount.code(), 0x0022_e018);
    assert_eq!(ControlIoctl::Setup.function(), 0x800);
    assert_eq!(
        ControlIoctl::DonateBacking.doc_name(),
        "IOCTL_FSRING_DONATE_BACKING"
    );
}

#[test]
fn a_donation_is_checked_version_first_then_required_flags_then_shape() {
    let status_of = |body: &[u8]| {
        ioctl_decision(
            RequestorMode::UserMode,
            IOCTL_CAPTURED,
            IOCTL_FSRING_DONATE_SECURITY_CONTEXT,
            body,
        )
    };
    let mut body = IOCTL_VALID_DONATE;
    body[4] = 2;
    body[6] = 1;
    body[0] = 0;
    assert_eq!(
        status_of(&body),
        ControlDispatchDecision::Complete(IOCTL_REVISION_MISMATCH)
    );
    body[4] = 1;
    assert_eq!(
        status_of(&body),
        ControlDispatchDecision::Complete(IOCTL_NOT_SUPPORTED)
    );
    body[6] = 0;
    assert_eq!(
        status_of(&body),
        ControlDispatchDecision::Complete(IOCTL_INVALID_PARAMETER)
    );
    assert_eq!(
        status_of(&IOCTL_VALID_DONATE[..7]),
        ControlDispatchDecision::Complete(IOCTL_INVALID_PARAMETER)
    );
    let mut long = IOCTL_VALID_DONATE.to_vec();
    long.push(0);
    assert_eq!(
        status_of(&long),
        ControlDispatchDecision::Complete(IOCTL_INVALID_PARAMETER)
    );
}

#[test]
fn the_snapshot_has_the_known_size_exactly_when_the_request_has() {
    for known in [0usize, 7, 8, 32, 160, usize::MAX] {
        for input in [8usize, 9, 31, 32, 33, 160, 161, usize::MAX] {
            let Some(bytes) = control_request_snapshot_len(input, known) else {
                panic!("a header is there");
            };
            assert_eq!(bytes == known, input == known);
            assert!(bytes <= input);
        }
    }
}
