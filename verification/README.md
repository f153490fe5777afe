# zeroclaw_tools

Two agent tools, `image_gen` and `pdf_read`, whose decisions are verified
with Verus.

- `src/` is the verified library. Each run of a tool is a chain of stages
  (`ImageGenStep`, `PdfReadStep`): a stage names the outside work that comes
  next (asking the security policy, reading the API key, an HTTP call, a file
  operation, text extraction) and takes its result, and its contract says
  exactly what follows for every result. Two values come from outside code
  and are stated through names for its results: base64 decoding of a data
  URI, and the `DefaultHasher` hash of a URL that names a download. Each tool
  also describes its parameters (`parameters_schema`), which `app/` renders as
  JSON Schema. `filename.rs` finds the final
  component of a requested file name; `text.rs` holds the character helpers
  (trimming, searching, numerals) with their specifications.
- `app/` runs the stages for an agent: the `Tool` trait, the host's
  security policy, HTTP with `reqwest`, files with `tokio`, and PDF text
  extraction with `pdf-extract` on a blocking thread.
- `tests/` drives the stages with given results of the outside work.
