# goose

The decision logic of a coding assistant, verified with Verus:

- `src/session/`: a session at the terminal. What the user's input leads to, how a
  response goes on event by event, what becomes of the conversation on an
  interruption, how notifications of extensions are shown, how extensions and
  prompts are read.
- `src/chat/`: the message bus that concurrent subagents share, with its atomic
  claims and its transcript, and the tools that they reach it through.
- `src/audio.rs`, `src/base64_text.rs`: requests to turn recorded speech into text.
- `src/stt/`: speech recognition on this machine. Which track of a recording is
  read, how samples are chunked, how spoken punctuation becomes signs, how the
  runtime and the model are downloaded.
- `src/text.rs`, `src/string_map.rs`, `src/json.rs`, `src/time.rs`: what the others
  are made of.

Every function states what it returns or changes. What spans several functions is
stated as a law: a public proof function whose name begins with `law_`.

`app/` is the program around the library: it performs the input and output that the
library asks for. Its session works with any agent and any screen that implement the
two traits at the top of `app/session.rs`. `tests/` runs the library.
