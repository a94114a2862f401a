# rcp

The OPEN Alliance TC18 Remote Control Protocol (RCP) stack as a Verus library:
every function in `src/` carries a contract, and Verus proves each body against
it; `src/` holds no trusted item. The two traits a user implements, `Endpoint`
and `L2Socket`, describe their methods through spec functions that an
implementation may define; one that does not promises nothing, and the
contracts built on it then say only what holds whatever it answers.

- `src/` – the verified library: ACF/AVTP framing, end-to-end CRC-32 and its
  trailer, fragment reassembly, endpoint addressing and EP0 access checks, the
  RC Server lifecycle and power modes, the GPIO / I2C / LIN / MDIO / ISELED
  endpoint encodings, an in-memory RC Server, fault injection, invariant
  checking, the loan buffer pool, call metrics and an mDNS record registry.
  Laws that span several functions (round trips, access rules, first-match
  fault selection, …) are public proof functions next to the code they speak
  of.
- `tests/` – executable tests of the library.
- `app/` – what stays outside the verified library: the raw `AF_PACKET`
  Ethernet socket (via `nix`), the error type with `Display` (via
  `thiserror`), the thread-shared loan pool with give-back on drop, and the
  timed, hook-running endpoint observer.
