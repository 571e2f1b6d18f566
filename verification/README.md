# ecu_shenanigans

A log-analysis and tuning-recommendation toolkit for the Škoda Fabia 1.4 TDI
PD (AMF, Bosch EDC15P+), built around VCDS measuring-block CSV logs.

## Layout

- `src/` — the library, written in Verus and verified:
  - `ingest/` — VCDS CSV sniffing and table parsing, group/field
    canonicalisation, DTC sidecar parsing and sidecar path construction.
  - `platform/amf_edc15p/` — the platform's channel and map registries,
    stock references, default delta rows, the EGR-delete recommendation
    set and the integer fan guardrails.
  - `rules/` — the rule pack: identifiers, metadata, the per-rule
    dispatch plan and the DTC-scan rule verdict.
  - `recommend/` — which rules fired, the per-row recommendation plan,
    the findings order and the Markdown report page.
  - `validate/` — the EGR-delete validation checklist and its markdown.
  - `util/` — boolean run detection used for pull windows.
- `app/` — the command-line program: file I/O, the floating-point
  signal processing and rule predicates, and report writing.
- `tests/` — behavioural tests of the library.

Run the program with `--accept-disclaimer` to acknowledge the safety
notice before any analysis is printed.
