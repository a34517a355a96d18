# dji_log_parser

A verified reader of DJI `.txt` flight logs.

`src/` is the library, written in Verus; every function in it carries a
contract that Verus proves:

- `stream`, `decoder`, `record`: the record stream. Each record is a type
  byte, a length, a payload and an end byte; payloads of format 7 and later
  are XOR masked and, from format 13, AES-256-CBC encrypted with keys that
  move on as records are read. Images and unreadable stretches are part of
  the stream too. `spec_records` states what reading a range gives.
- `layout`: the details block (flight summary) and the auxiliary blocks of
  format 13 logs.
- `keychain`: keychains, feature points, and the bodies of the keychain
  service.
- `djilog`: a log with its layout; its records and its keychain request.
- `frame`: the frame state that records set without floating-point values.
- `export`, `c_api`: what the CSV, image and JSON outputs are made of, and
  the last-error slot of the C interface.

`app/` is the command line reader and the C interface: file and network
I/O, JSON/CSV/KML/GeoJSON/EXIF output, and the floating-point parts of the
frames. The positions that a log's prefix block gives are passed in as a
`Prefix`.

`tests/` runs the library on constructed logs.
