# mikrotik-exporter

A Prometheus exporter for MikroTik routers: wireless clients (legacy CAPsMAN and the wifi package),
sensors, and Ethernet ports with a power output.

- `src/` is a verified library. It holds the decisions of a scrape: which devices take part, which
  rows of a device become which metrics with which labels, what is logged, in which order families
  are reported, and what a request is answered with.
- `app/` is the program around it: configuration, HTTP server, connections to devices, deadlines,
  and the conversion of numbers to floats.
- `tests/` runs the library on concrete rows.

The library calls `prometheus` for the text format and `encoding_rs` for Latin-1 texts. What it
takes for granted about them is stated at `exposition::text_encode`, `response::text_format` and
`text::decode_latin1`.

## Configuration

`config.yaml` lists the devices, each with `name`, `address`, `user` and `password`, and may set
`port` (8080 otherwise). Variables that start with `APP_` override it. Metrics are served under
`/metrics`, and `/health` answers `OK`.
