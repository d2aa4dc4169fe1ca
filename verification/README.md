# floci_ui

A verified core for a desktop console that manages AWS services running in a
local Floci emulator. The library decides everything that does not need the
network: which endpoint is allowed, which of the 45 services exist and how
they are grouped, whether an action request is well formed and confirmed,
which AWS call an action performs, how the reply is worded, and how each
listed resource is shaped (with secrets and identity details redacted).
Every function carries a contract that is proved of its body.

Layout:

- `src/` — the verified library.
  - `config.rs`, `floci.rs`, `app_update.rs`, `commands.rs`, `models.rs`,
    `services.rs`, `text.rs`: configuration, health, update snapshots, the
    service catalog and text helpers.
  - `service_management/`: the service registry, request routing and
    validation (`actions.rs`), errors, and one module per service family
    under `adapters/`, each service with its tabs, its action planning
    (`plan_action` / `completed`), the builders of its listed resources and
    the assembly of its inventory page (`inventory`).
- `tests/` — tests over concrete values.
- `app/` — a command-line shell that reads settings, talks to the emulator
  over HTTP and the AWS SDK, and hands plain values to the library. The
  shell holds AWS SDK clients for DynamoDB, SQS, SNS, KMS, Secrets Manager
  and STS only: it lists those services (and runs the DynamoDB, SQS, SNS,
  KMS and Secrets Manager actions); for any other catalogued service it
  answers that no AWS client is available in the shell, though the library
  plans and words that service's actions and shapes its resources.
