# sovereign-cli

The verified core of a founder's local business runtime: the rules, records
and AI-employee workflow of a one-person consultancy, proved against their
contracts by Verus. The calls into `chrono`, `uuid`, `base64`, `rand`, `hex`
and a few `std` string functions stand behind small trusted wrappers whose
contracts restate what those libraries document; everything else in `src/`
is verified.

- `src/` — the library. Text helpers (`text`), the Singapore compliance rule
  pack and its checks (`compliance_pack`, `compliance`, `checks`, `report`),
  the business graph and its operations (`types`, `erp`, `business`,
  `amounts`, `calendar`), outgoing mail (`compose`), the AI employees — what
  they may read, the drafts they write, how a model's answer is validated,
  what an approval applies (`crew`, `crew_input`, `crew_draft`,
  `crew_answer`, `crew_prompt`, `crew_apply`, `crew_desk`), the privacy preview's inputs
  (`privacy`), the memory-only business demo (`demo`), model configuration
  (`model_config`), the UI's ready line (`ui`), request-body fields
  (`request_fields`), the security-check verdicts (`gauntlet_report`), and the
  library-wide laws (`laws`).
- `tests/` — executable tests of the library.
- `app/` — the command-line program: argument handling, the loopback demo
  server, and reading the model configuration file.
