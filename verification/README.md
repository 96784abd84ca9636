# serviceos_runtime

The client side of the ServiceOS user-space services, verified with Verus:
the IPC envelope and its packing, the request/reply protocols of the
system services, and the state machines of the session, security, setup
and settings programs.

## Layout

- `src/` is the verified library.
  - `message`, `ipc`, `error`, `abi`, `decode`, `types`: the envelope, the
    wire codes and the records carried in replies.
  - One module per service protocol (`storage`, `network`, `package`,
    `desktop`, `graphics`, `audio`, `security`, `compat`, `developer`, ...).
    A call is written as a step: called without a reply it yields the
    request to send (or the error that refuses it); called with the reply
    it yields the outcome. The contract of each step states both.
  - `session_registry`, `session_service`: the session service's registry
    of sessions and seats, and its request and input handling.
  - `security_service`, `policy_store`: the security service's policy table
    and audit log, and the file it persists the table in.
  - `setup_wizard`: the first-boot wizard's steps and its helpers.
  - `backup`, `wifi_page`, `security_page`, `settings`, `settings_app`: the
    settings app's pages and its controller, which turns app-control
    messages (key, text, pointer, focus, resize, close) into page changes
    and the service calls to make.
  - `settings_pages`: the text lines each settings page shows, built from
    what the services reported and the app's state.
- `app/` is ordinary Rust around the library: the kernel calls (behind the
  `Kernel` trait a platform implements), the blocking round trips that
  drive the library's steps, and the programs' main loops. The settings
  app hands each page's lines to a `PageSurface` the platform provides,
  which draws them.
- `tests/` runs the library on concrete values.
