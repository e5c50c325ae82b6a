# winx_application

The application layer of Winx KVM, a software KVM that shares mouse,
keyboard and clipboard between PCs on a local network.

- `src/` holds the logic of each bounded context, verified with Verus:
  pairing sessions (PIN checks, expiry, signatures), the connection table
  and reconnection, clipboard anti-echo rules, the input-focus state
  machine and session cursor, monitor layouts and their wire form,
  discovery, identity, the connection lab, and workspaces
  (last-writer-wins sync, shared cursor, invites).
- `app/` holds the async services that drive that logic: the traits the
  platform adapters implement, the `tokio` tasks, and serializable copies
  of the report types.
- `tests/` exercises the library on concrete values.
