# vector_components

Components of an observability pipeline, verified with Verus.

- `secrets::test`: a secrets backend that answers every request with one fixed
  value.
- `sources::socket`: the configuration of a source that listens on TCP, UDP or
  Unix domain sockets. It is read from a TOML value (`read`), built into the
  source that is to be run (`plan`), and announces its output (`outputs`).
  `laws` holds what is true of it as a whole.

The library decides and the pipeline acts. Building a source yields a
description of the decoder, the log namespace and the TLS settings; making the
decoder, loading the settings and listening are left to the pipeline. So are the
settings of framings, deserializers, TLS and keepalive, which are kept as TOML
tables, and the text of a listen address.

`toml_value` holds all that is taken on trust: what the accessors of the `toml`
crate return, that the crate reads a document of plain `key = "value"` lines as
the table that it spells, and that it writes such a table as such lines, in the
order of their keys.

`app/` implements the traits of the pipeline for the components.
