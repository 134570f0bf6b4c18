# getitdone

A task queue on top of MongoDB: a caller submits a task and awaits its result like a function call,
a worker claims the task, runs a handler on it and writes the result back.

- `src/` is the library. It decides: which filters, updates and pipelines go to the database, what
  its answers mean, when a running task counts as abandoned, and what callers and workers do next.
  It performs no input or output. Its functions carry contracts that Verus proves; what it takes on
  trust from `bson`, `hex`, `opentelemetry`, `serde_json`, `tracing-opentelemetry`, `uuid` and the
  standard library is declared where it is used.
- `app/` is ordinary Rust around it: `Caller` and `Worker` with their connections, streams, timers
  and metrics.
- `tests/` runs the library on concrete values, most of it on small collections in memory.

Where to look first:

| Module | What it holds |
| --- | --- |
| `claim`, `caller` | the documents that workers and callers send |
| `task`, `wait`, `worker`, `pump` | what happens next, as functions from state and event |
| `expiry`, `schedule` | the table of deadlines of running tasks |
| `query` | what filters and updates mean, for use in laws |
| `laws`, `tracking`, `stream` | what holds of task documents, of the table and of change events as a whole |
| `occupancy` | how many tasks run at once |

The deployment must be a replica set or a sharded cluster. Recommended indexes:

```js
db.collection.createIndex({ task_id: 1 }, { unique: true })
db.collection.createIndex({ status: 1, updated_at: 1 })
db.collection.createIndex({ "worker_state.worker_id": 1 })
```
