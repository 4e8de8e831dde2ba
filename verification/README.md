# eth_rpc_module

A proxyable, fail-closed Ethereum JSON-RPC client core, written and proved in Verus.

It keeps one record per chain (endpoint, network proxy policy, timeouts, verified routing) and decides
for every call which way it goes: to the chain's node, through a light-client proxy that proves the
answer, or nowhere at all. A chain that must use a network proxy and has no usable one sends nothing; a
chain that must be verified is never answered from an unverified source.

## Layout

| Module | What it holds |
|---|---|
| `config`, `store`, `status` | the records, every way to write one, what a write moved, what is reported |
| `proxy` | the one place that decides how a request may leave |
| `rpc`, `reply`, `dialect` | the routing decision, deadlines, requests and responses, the proxy's dialect |
| `link`, `probes` | the outbound calls to the proxy and the host, each written down as it is made |
| `verdict`, `gate`, `router` | the verdict on the verified proxy, the order of the probes, what is remembered |
| `module`, `serve`, `contract` | the JSON boundary, events, and the traits that a host sees |
| `laws`, `routing_laws`, `gate_laws` | what holds of the library as a whole |
| `json`, `text`, `order`, `num`, `time`, `error`, `methods` | the vocabulary of the rest |

`app/` is ordinary Rust around the library: locks, the file that the records are kept in, HTTP and the
host's other modules. The library never sends anything itself: it hands out a `PostRequest` and takes the
`PostReply` back.

## What is trusted

Reading and writing JSON is `serde_json`'s, and the conversions between its `Value` and the library's
`Json` go with it; whether a proxy url is acceptable is `reqwest`'s. Their results are named
(`json_read`, `json_read_bytes`, `json_written`, `proxy_objection`) and not described further. Of the
standard library, `str::trim`, `str::to_ascii_lowercase` and `String::push` are taken at their
documentation's word.
