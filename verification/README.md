# aimux_providers

The provider layer of a unified LLM access library, written in Verus: the
request bodies, response readings, stream state machines, registry rules and
configuration logic of the OpenAI-compatible providers, the OpenAI and
Responses APIs, the Open Responses wrapper, and the image, video, speech,
transcription and search providers, each with a contract that Verus proves.

## Layout

- `src/` — the verified library.
  - `provider.rs`, `registry_data.rs`, `env.rs` — the provider registry
    (built-in entries, runtime entries, key resolution) and the environment.
  - `openai/` — chat completions (`messages.rs`, `request.rs`, `tools.rs`,
    `body.rs`, `stream.rs`, `generate.rs`), the Responses API
    (`responses*.rs`), images, files, speech, transcription and embeddings.
  - `open_responses*.rs` — the Open Responses request, stream state machine
    and answer reading.
  - one module per modality provider (`replicate.rs`, `revai.rs`,
    `runwayml.rs`, `stability.rs`, `prodia.rs`, `recraft.rs`, `vertex.rs`) and
    per search provider (`tavily.rs`, `serper.rs`, `searxng.rs`,
    `parallel_ai.rs`, `tinyfish.rs`).
  - `vertex.rs` — Vertex AI: endpoints, and the requests and answer readings
    of embeddings, transcription (Speech-to-Text), image (Imagen and Gemini)
    and video generation.
  - `json_read.rs` — reading JSON text with `serde_json`, stated through a
    named result of the text.
  - `json.rs`, `json_text.rs`, `headers.rs`, `keyed.rs`, `text.rs`,
    `multipart.rs`, `codec.rs`, `media.rs` — the values the library works on
    and their text forms.
- `tests/` — tests on concrete values.
- `app/` — the I/O side: configuration files, the process environment, wire
  JSON, and the loops that feed stream events to the state machines.

Each stream is a state machine. A stream opens with `start_parts` (the
request's warnings); the Open Responses state takes the data of each
server-sent event through `on_data`, which reads it, stops on `[DONE]` or on
data that is not JSON, and returns the parts to emit; the chat-completions
state takes each parsed event through `on_event`; `end` gives the closing
parts. `app/` runs the loops.
