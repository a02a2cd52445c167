# ClawHire

ClawHire is a self-hosted Solana "AI freelancer": a customer picks a
blockchain service (a smart-contract security review or an on-chain
intelligence report), receives an invoice payable in SOL, and once the
payment is seen on chain the service runs and a Markdown and PDF report is
delivered.

## Layout

- `src/` is the library, verified with Verus:
  - `runtime.rs`: jobs, invoices, report metadata and events, the pools that
    hold them, and the job lifecycle operations (`App`).
  - `payments.rs`: pricing, invoices and quotes, payment detection and
    verification decisions, and the invoice and job state changes they cause.
  - `services.rs`: input validation, prompts, source collection, findings,
    risk scores, summaries and execution log lines of the two services.
  - `reports.rs`: report builders, Markdown text, PDF page layout, file names
    and paths, and the report index.
  - `commands.rs`: the decisions behind the command-line commands and the job
    pipeline that runs after payment.
  - `laws.rs`: properties that span several operations.
  - `pool.rs`, `text.rs`, `clock.rs`, `solana.rs`: keyed record pools, text
    helpers, time values, and Solana address and signature checks.
- `app/` is the program around it: the command line, configuration files,
  JSON persistence, HTTP calls to the AI providers, Solana RPC queries,
  repository checkout and PDF drawing.
- `tests/` exercises the library on concrete values.
