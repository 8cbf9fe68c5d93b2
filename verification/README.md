# nifi_rust

Building blocks for NiFi processors written in Rust, with their behaviour
stated as Verus contracts and proved.

- `src/` is the verified library: FlowFiles and their attributes
  (`flowfile`, over the string map in `str_map`), process contexts and
  sessions (`context`), property descriptors, values and relationships
  (`processor`), the decisions of the FROST CI/CD processors (`frost`), and
  the plain messages a runtime exchanges with the NiFi framework (`wire`).
  `ext` holds the trusted items through which the library calls `bytes`,
  `uuid`, `chrono`, `serde_json`, `k8s-openapi` and std.
- `tests/` runs the library on concrete values.
- `app/` is ordinary Rust around the library: the asynchronous `Processor`
  trait and its registry, the FROST processors with their Redis, Kubernetes
  and PostgreSQL connections, the serde forms of the library's records, and
  the runtime service that drives processors.
