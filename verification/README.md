# fsring_core

The decision core of the fsring file-system driver, verified with Verus.

- `src/adapter` — plans that a marshalling layer executes one effect at a time:
  stack expansion, volume mount, verify and dismount, and session setup.
- `src/enter` — the ENTER request: roles, readiness, results, and the parked
  request with its owners, wakes, worker, timer and completion.
- `src/effect.rs`, `src/lockrank.rs` — which effects a path may perform with
  the locks it holds, and which locks it may take next.
- `src/controldev.rs`, `src/bootctx.rs`, `src/pool.rs`, `src/allowscan.rs` —
  the control device, the boot context, allocation, and the scan for
  unjustified lint suppressions.
- `src/abi`, `src/session.rs`, `src/terminal.rs`, `src/grant.rs`,
  `src/volume.rs`, `src/bits.rs` — the values and models the others share.

Contracts speak of each type's view. Laws that relate several functions are
public proof functions named `law_*`. The numbers and layouts in `src/abi` are
this crate's own definition of the interface, but for the Windows statuses.

`app/` holds the ordinary Rust around the core, and `tests/` runs the core on
concrete values.
