# drogue_cloud_core

The decision logic of the Drogue IoT cloud endpoints and of its Ditto registry operator,
written in Verus: every function states what it returns in `requires`/`ensures`, and
Verus proves it.

## Layout

- `src/` — the verified library.
  - `event`, `json`, `registry`: cloud events, JSON values and what the endpoints read
    of applications and devices.
  - `auth`, `psk`, `telemetry`, `ttn`: device credentials, `Authorization` headers, PSK
    identities, and how the HTTP and The Things Network endpoints turn a request into a
    publish and answer it.
  - `sender`, `downstream`, `http_sink`, `sink`, `stream`: building the events of
    publishes, where they go, and how events read back from Kafka are brought into
    shape.
  - `process`, `external`: the rules engine; external steps are handed to the caller,
    who resumes processing with the endpoint's answer.
  - `command`, `commands`, `router`, `id`, `endpoint`: commands for devices, their
    subscriptions and routing.
  - `ditto`: Ditto entities and their text forms, the WebSocket and HTTP requests,
    DevOps commands, the Kafka connections the operator configures, and the steps with
    which it sets an application up and tears it down.
  - `text`, `ordered`, `urls`, `status`, `error`, `kafka`, `influx`: shared text
    functions, ordered string maps, URLs, HTTP status texts and errors.
- `tests/` — tests of the library on concrete values.
- `app/` — the I/O around the library: serde forms of its types and of the JSON it
  reads (TTN uplinks, DevOps answers), and drivers that perform the outside work the
  library's decisions ask for: authenticating devices, the HTTP telemetry and TTN
  endpoints, the rules' external steps, the Kafka and HTTP sinks, incoming commands,
  and the operator's requests to Ditto. The services themselves (HTTP client, Kafka
  producer, authentication service, waiting for commands) are traits for the program
  that runs the endpoints to implement.

Calls into outside crates (`percent-encoding`, `base64`, `url`, `serde_urlencoded`,
`mqtt-protocol`, `x509-parser`, `http`, `indexmap`, `rand`, `uuid`, `chrono`) stand
behind small trusted wrappers whose contracts say what the crates' sources and
documentation promise.
