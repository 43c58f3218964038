# acp_web_frontend

The browser-independent logic of the ACP web frontend, written in Verus and
proved against its contracts.

- `routing`, `return_to`: URL component encoding and decoding, the routes of
  the app, and return-to links that only ever lead back to a session page.
- `contracts`: the values the backend sends (sessions, messages, permission
  requests, accounts, workspaces, agent profiles).
- `lifecycle`, `entries`, `activity`: session lifecycle, transcript entries
  and tool-activity text.
- `session_state`, `session_actions`, `session_view`: the state of a session
  page, how stream events, prompts, permission answers, renames and deletes
  change it, and what the page shows.
- `auth_page`, `accounts`, `accounts_page`, `agent_profiles`, `workspaces`,
  `workspaces_page`: the credential, settings and workspaces pages.
- `time_format`: UTC timestamps, rendered by `chrono`.
- `text`: character-level helpers (trimming, decimal numbers, joining).

Each operation that waits on the backend is split in two: a `begin_…` method
that decides whether a request goes out and what it carries, and a
`finish_…` method that takes the backend's answer. The caller performs the
request in between.

The public proof functions named `lemma_…` state the laws of the library, for
instance that decoding an encoded component gives it back, that replaying a
stream event changes nothing, and that a return-to link reads back exactly
the session path it was made from.
