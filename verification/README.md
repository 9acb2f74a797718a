# sakura-ai-rs

A client for the chat-completion API of the Sakura AI Engine, compatible with the
chat methods of `ollama_rs::Ollama`.

- `src/` is the library, verified with Verus: framing of the streamed answer
  (`stream`), Unicode trimming (`text`), the engine's response types and their
  conversion into the ollama-rs shape (`chat`, `model`), the request (`request`),
  the conversation history (`history`) and the service address (`client`).
- `app/` sends the requests over HTTP with reqwest, parses and writes JSON with
  serde, and converts between the ollama-rs types and the library's models.
- `tests/` exercises the library on concrete values.
