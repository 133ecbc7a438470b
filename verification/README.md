# shared_assets

Shared building blocks for a family of companion web apps, written in Verus
so that their behaviour is stated in contracts and proved.

- `src/` is the verified library: origin checks, authentication cookies,
  session ids, PIN-attempt lockout, per-IP rate limiting, server
  configuration rules, the localized UI strings, the decisions behind the
  shared UI components (links, labels, enabled states, PIN entry) and the
  maintenance checks run over the app trees (icons, AppShell links). Calls
  into `axum`, `axum_extra`, `rand`, `regex` and `md-5` sit behind small
  trusted wrappers whose contracts say what those crates document.
- `tests/` runs the library on concrete values.
- `app/` is the unverified edge: process-wide state, environment variables,
  HTTP responses, the Yew components and the file-system side of the
  maintenance command. It hands plain values to the library and acts on what
  comes back.
