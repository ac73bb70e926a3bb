# nodenet_native

The checked core of a Linux raw-socket library and of a bounded network
scanner built on it, written in Verus.

`src/` holds everything that decides: socket-option names, ranges and their
integer encoding; ancillary-control validation and decoding; batch, message
and filter limits; the scanner's plan admission (ports, probes, UDP policies
and risk consents, scheduler defaults, source ports, seeds, discovery
operations and scopes, observation and path plans); the bounded result queue
and its sealed column batches; the admission of a whole scan plan (at most
one UDP probe, its catalogue programme, multicast consent, timing, port and
payload budgets, the result schema); lifecycle controls, pacing and token
buckets; the discovery session's queries (link and target scopes) and the
per-query decisions of its send loop (response windows, lease settlement,
the physical query limit, unsent work) and its close (a strictly ordered,
numbered, capped report and the state that tells a cancelled session from a
completed one), the rpcbind follow-up that awaits the NFS port a GETADDR
reply names, the entities its
replies report (LLMNR, NAT-PMP, SQL Server browser, WS-Discovery, TFTP, QUIC,
rpcbind and the mDNS service aggregation with its follow-up queries), how
repeats merge and budgets truncate, and the final report order; the UDP
catalogue programme; the observed-frame rows; and the small text and byte
formats the sessions report. Contracts state each
result exactly, and proof functions state the laws that span calls (option
names and values round-trip, consent names and bits spell each other, the
result queue keeps its bounds and order, admitted operations ascend, derived
discovery entities name a reported parent, every error is well formed (its
code names its kind, an errno exactly for system failures),
the first readiness settlement wins, a resumed completeness scan agrees with
a fresh one).

`app/` is the system-call layer around it: sockets, `setsockopt`/`getsockopt`,
`sendmsg`/`recvmsg`, `sendmmsg`/`recvmmsg`, packet filters and memberships,
clocks and the waiting loops. It hands the library plain values and checks
nothing on its own.

`tests/` exercises the library from outside.
