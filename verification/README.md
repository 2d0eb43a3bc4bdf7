# irodori-qdrant

A connector driver for the Qdrant vector database, written in Verus.

`src/` is the driver: it reads a connection profile, plans the HTTP requests,
interprets the answers, keeps the open connections and words the replies. Every
function states what it returns, and Verus proves it, but for the calls into
outside crates listed at the end. The library performs no I/O; where it needs a
file or an answer it says so and is resumed with what came.

| module | what it holds |
| --- | --- |
| `options` | the options of a profile and their spellings |
| `tls` | transport security and the HTTP client that honours it |
| `config` | address, credentials and redaction |
| `query` | from an input to a scroll request |
| `connection` | the HTTP requests of a connection |
| `answer` | version and rows out of a server's answers |
| `metadata` | the collections of a server, described as tables |
| `connections` | the registry of open connections |
| `opening` | from a configuration to a connection that honours it |
| `driver` | what each method of the connector replies |
| `json`, `text`, `percent` | JSON values, texts, path segments |

`app/` connects the library to the host's connector ABI, the file system and the
network. `tests/` runs the library with the outside crates linked.

What is taken on trust stands in `json`, `tls`, `connection`, `answer` and
`text`, next to a comment that names the outside function: `serde_json`'s parser
and numbers, `reqwest`'s client builder, certificates and status codes, and
`String::push`.
