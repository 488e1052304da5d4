# slack_morphism

Models of the Slack Web and Events APIs and of Block Kit, together with the
parts of a Slack client that decide things: the requests it sends and how it
reads the answers, when it retries, the rate counters that pace requests, the
multipart body of file uploads, the routing of the requests that Slack sends
to an app, and the text formats of dates, emoji and icons.

The library under `src/` is written in Verus: each function states its result
in its contract, and the laws that relate functions stand as proof functions
beside them.

- `src/models`: the models (`blocks`, `common`, `events`, `messages`, `apps`,
  `files`).
- `src/ratectl`: the token-bucket counter of rate control and the limits kept
  for a team.
- `src/multipart_form.rs`: the body of a `multipart/form-data` upload.
- `src/hyper_tokio`: what the HTTP client and the listeners decide.
- `src/decimal.rs`: decimal texts of integers, written and parsed.
- `app/`: the serde forms of the models whose wire text the library computes,
  and the debug text of secrets.

Not modelled: the workflow button element, whose style and accessibility
label types have no definition to model, and a chrono-based
`SlackTs::to_date_time`, whose place `to_date_time_opt` takes.
