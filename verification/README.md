# ccp_nimbus

Nimbus is an elasticity detector for congestion control on the CCP
platform (portus): a master flow pulses its sending rate, watches whether
the competing cross traffic reacts to the pulses in the frequency domain,
and switches between a loss-based rule (Cubic or MulTCP, "XTCP") when the
cross traffic is elastic and a delay-based rule (Copa, Vegas or Nimbus's
own) when it is not.

Layout:

- `src/` — the verified library (Verus): the mode enums and their parsers
  (`modes`), the discrete flow state and its switching decisions
  (`control`), the FFT window length and sample pairing (`spectrum`), the
  measurement-history catch-up (`history`), and MulTCP's choice of the flow
  that takes a loss (`drop_choice`).
- `app/` — the `nimbus` program: command-line configuration, the portus
  algorithm and flow, and all real-valued (`f64`) estimation, calling the
  library for every discrete decision.
- `tests/` — tests of the library.
