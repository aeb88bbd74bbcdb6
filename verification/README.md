# Mnemosyne

A learning platform built on spaced repetition, active recall and Socratic
dialogue. The server keeps flashcards and reviews in PostgreSQL, asks a language
model for cards and for the tutor's side of a dialogue, and reads concepts out of
a Knowledge Store; a browser client runs the dialogue.

`src/` is the library: what the server and the client decide, verified with
Verus. An endpoint is a chain of turns. Each turn takes what came back from the
database or from the model and gives either what to do next or the final reply,
and its contract says which.

| Module | What it decides |
|---|---|
| `text` | trimming, quoting and unfencing of texts, and the lenient reading of model replies |
| `ids`, `time`, `http` | identifiers, points in time, statuses and replies |
| `deepseek`, `llm_provider` | requests to the model and what its answers mean |
| `ks_client` | requests to the Knowledge Store and what its answers mean |
| `handlers` | the endpoints: card generation, cards from concepts, the review queue, reviews, the dialogue |
| `health` | the health checks |
| `frontend` | the screens of the browser client |

Proof functions named `law_...` state what holds across functions.

`app/` is ordinary Rust around the library: the HTTP server, SQL, the HTTP
clients, serialisation and the drawing of the screens. `tests/` runs the library.
