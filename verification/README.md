# f3dx-router

An in-process router for LLM providers, verified with Verus.

A chat request is routed to upstream providers under a policy. *Sequential*
tries the providers in order; a soft failure (429, 5xx, a transport error)
moves on to the next provider, a hard failure (any other non-2xx answer) is
returned at once. *Hedged* fires the first `hedge_k` providers (clamped to
`[1, n]`) at once and the first completion that is not a soft failure decides.

## Layout

- `src/` — the verified library.
  - `config.rs`: providers, policies, the configuration, its validation and the request URL.
  - `status.rs`: the failure model (which statuses are soft, which hard) and the errors they become.
  - `error.rs`: the error type and the text it renders.
  - `routing.rs`: both policies as state machines (the caller makes each attempt and
    hands its outcome back), with proofs about whole runs.
  - `bridge.rs`: what the Python binding decides: provider entries, policy names,
    the configuration, the request body and the exceptions raised.
  - `text.rs`: character-level helpers (case folding, slash trimming, decimal and
    list rendering).
- `tests/` — tests of the library.
- `app/` — the unverified shell: the HTTP client and async loops driving the state
  machines, serde and thiserror copies of the types, and the PyO3 module.
