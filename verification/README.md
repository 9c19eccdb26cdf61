# bge-router

A reverse proxy for BGE-M3 embedding servers. Requests go to a GPU or a CPU
upstream; both pools are discovered through DNS and watched by health polls.

- Inference paths (`/v1/*embeddings*`) are raced: the GPU upstream is asked
  first, the CPU upstream after the hedge delay, and the first answer outside
  the 5xx class is returned.
- Every other path is tried on the GPU upstream and then on the CPU upstream,
  each under a hard timeout.

## Layout

| Directory | What it holds |
|-----------|---------------|
| `src/`    | The decisions, as a library whose contracts Verus proves |
| `tests/`  | Tests of the library |
| `app/`    | The program around it: sockets, DNS, timers, logs |

In `src/`:

| Module | What it decides |
|--------|-----------------|
| `config` | What the environment variables mean, and which are rejected |
| `router::route_policy`, `router::policy` | Which strategy a path gets, which upstream is picked |
| `router::fallback` | The plan for a request, the race, the sequence of attempts |
| `router::proxy`, `headers` | Which headers pass in which direction |
| `upstream::discovery` | What a DNS lookup does to a pool, and when the next one is due |
| `upstream::health` | What a health poll says of an upstream |
| `upstream::snapshot`, `upstream::shared` | The pools, and how tasks share them |
| `handler`, `metrics`, `bootstrap`, `logging` | Health report, heartbeat, startup, log lines |
| `error`, `state`, `text`, `time` | What the rest is made of |
