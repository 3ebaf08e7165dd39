# imessage-exporter, verified core

The decisions of the iMessage exporter, written in Verus with their contracts
proved:

- `src/options.rs`: command line validation (`Options::from_args`), export path
  checks and the messages shown for invalid options;
- `src/query_context.rs`: `YYYY-MM-DD` date filters;
- `src/bundle_id.rs`, `src/attachment_metadata.rs`: reading message data;
- `src/compatibility/`, `src/converter.rs`, `src/converters/`: which attachments
  convert, into which format, and the arguments of the converting programs;
- `src/exporters/json.rs`: the JSON text of a message (through `serde_json`) and
  which messages of a stream are written;
- `src/error/`: the messages of the database and message errors;
- `src/laws.rs`: properties that span several functions.

`app/` holds what touches the system: the `clap` parser, probing the file system
and installed programs, running converters, decrypting iOS backups with
`crabapple`, the `indicatif` progress bar and writing export files.
