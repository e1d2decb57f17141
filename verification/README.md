# atlas_core

The verified core of Atlas, a local-first learning workspace: documents of
linked folders are indexed into chunks, searched, turned into a concept
graph, and used by local models to tutor, quiz and plan revision, while the
student's notes, conversations and quiz results are remembered.

Every executable function of the library is written in Verus and carries a
contract that Verus proves.

## Layout

- `src/` — the library.
  - `error`, `ids`, `text`, `records`, `json`, `time`: the shared vocabulary
    (errors, identifiers, strings, generic record selection, JSON values
    and timestamps).
  - `db`: the SQLite connection, the schema migrations and the typed reading
    of result rows.
  - `memory`, `chat`, `memory_store`, `study_store`, `memory_db`: student
    memory (annotations, bookmarks, conversations, revision history, quizzes,
    flashcards, revision plans, weak topics), in memory and in SQLite.
  - `settings`: the layered settings resolver and its SQLite counterpart.
  - `documents`, `search`: indexed documents and chunks, keyword search and
    the content served to document viewers.
  - `jobs`: the background job queue, its state machine and indexing
    progress.
  - `engines`, `registry`, `prompts`, `study_output`, `chat_flow`: engine
    routing, the model registry and model fallback, prompt assembly,
    validation of structured model output and the steps of one assistant
    turn.
  - `chat_turn`: one streamed, grounded assistant turn as a sequence of
    decisions: the caller performs each action (store, retrieve, ask the
    model, forward a piece of the answer) and hands back what came of it.
  - `graph`: concept extraction and merging into the concept graph.
  - `cancellation`, `state`, `requests`, `workspaces`: request cancellation,
    the session's focus and the request/response shapes of the interface.
- `tests/` — tests run against the compiled library.
- `app/` — a small command-line front end over the library; its `ask`
  command runs one assistant turn against the local model server, the
  library's turn deciding every step.
