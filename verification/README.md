# khiin_windows

The Windows side of the Khíín Taiwanese input method, as a Verus library.

`src/` holds the logic, each function with a contract that Verus proves:
key handling and its modifier state machine, the candidate pager and grid
layout, the plans that turn engine replies into composition edits, the UTF-16
and packed-parameter conversions of Win32, registry value encoding, the tray
menu and language-bar icon computations, the engine connection's retry policy,
and the interface texts. Public `lemma_*` proof functions state the laws that
hold across calls (round trips, coverage, uniqueness).

`app/` holds the calls into Windows that cannot be verified: registry and DPI
queries, the keyboard state, and the process-wide interface language.

`tests/` exercises the library on concrete values.
