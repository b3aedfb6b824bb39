# oneclick_brm

Helpers for Oracle BRM work, verified with Verus, and the HTTP server that
offers them.

## Library (`src/`)

- `text`, `number`, `wordchar`: character-level string operations
  (`lines`, `split`, `trim`, `replace`, decimal text, Unicode classes) with
  their specifications.
- `fields`: per-session tables of BRM field definitions (`name|type|number`).
- `lfield`, `flist`: the FLIST line grammar and the FLIST conversions to C
  code and XML; `flist_json` holds the parts of the JSON conversion that
  compute.
- `podl`: PODL generation from field and class specifications.
- `service`: what each HTTP endpoint decides, from the request's values and
  the current state to a status and a reply.
- `calltree`, `tracezip`: call stack traces: reading their lines, pairing
  entries with exits, the call tree, and finding the trace in a ZIP upload.
- `laws`: properties that span several operations, proved.

## Server (`app/`)

`main.rs` runs the actix-web server: configuration, logging, the routes, and
the parts that need I/O (running `xml2json`, reading uploads). `callstack.rs`
measures call durations and renders the HTML report (floating point);
`wire.rs` holds the JSON forms of the library's replies.
