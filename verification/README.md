# h5i-audit-report

Turns the JSON from `h5i browser audit --json` into one self-contained HTML report:
session identity and starting URL, placement, engine and session lane, ending state and
reason, policy digest, evidence availability of each audit source, summary counts, and the
ordered event timeline with simple client-side filters. The page embeds its CSS and
JavaScript and loads nothing.

The library is written in Verus and verified:

- `src/json.rs` — a JSON document as plain values (`Json`) and its model (`JsonModel`);
  the two calls into `serde_json` (reading text, printing compact JSON) sit behind trusted
  wrappers whose results are named by `serde_json_read` and `serde_json_compact`.
- `src/fields.rs` — reading typed members of an object, with the message for each problem.
- `src/model.rs` — the audit types and their models. Every string-named enum keeps an
  unknown string in an `Unknown` variant, so that audits of newer h5i builds still read.
- `src/parse.rs` — `parse_audit` and `parse_audit_value`, specified by `decode_audit`:
  which documents are audits, what audit each is, and which message names the first
  problem of one that is not. A root array (the sessionless helper log) is refused as such.
- `src/text.rs` — HTML escaping and decimal numerals.
- `src/render.rs` — `render_report`, specified by `report_html`.
- `src/page.rs` — what every report page holds and lacks: no `<link`, `<img` or `<iframe`
  tag and no quoted `http` address in a `src` or `href` attribute, one tag that opens the
  style sheet, one that opens the script and one that closes it.
- `src/cli.rs` — the command line, specified by `command_of`.

Each module ends with the laws proved of it (`law_*`). `app/main.rs` is the program around
the library: arguments, reading the input, writing the output.

## Usage

```bash
h5i-audit-report audit.json --out report.html
h5i-audit-report audit.json > report.html
h5i browser audit --json | h5i-audit-report > report.html
h5i browser audit --json | h5i-audit-report --out report.html
```
