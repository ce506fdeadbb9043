# sage-wiki-bridge

A bridge from a WeChat Official Account to a sage-wiki source directory:
it receives callbacks, whitelists senders, queues messages, enriches them
(Jina Reader for links, Tencent LBS for locations, Gemini for media) and
writes daily Markdown source documents.

## Layout

- `src/` is the library, verified with Verus. Every decision the bridge
  makes is there with its contract: configuration resolution and its
  precedence, callback signatures and AES framing, message records and the
  receive decision, the worker's plans and retry schedule, source-document
  rendering and upsert, archive paths, the admin pages, and the status and
  doctor reports. Calls into `sha1`, `sha2`, `constant_time_eq`, `base64`,
  `aes`/`cbc`, `url` and `time` go through small trusted wrappers whose
  contracts say what the crates document.
- `app/` is the program around it: the HTTP server (`axum`), the SQLite
  store (`sqlx`), the HTTP clients (`reqwest`), XML and JSON decoding
  (`quick-xml`, `serde_json`), logging, file I/O and the worker loop. It
  hands plain values to the library and acts on what comes back.
- `tests/` exercises the library on concrete values.
