# ghosty_launch

A terminal launcher that publishes a GitHub repository as a live app on an
EasyBits VM (or as a static site on its CDN), with a fix agent for failed
deploys.

The library (`src/`) is written in Verus and holds the decisions, each with
its contract:

- `state`: the UI state machine (`App::apply` for background messages, the
  deploy steps, the agent hand-over) and its well-formedness;
- `keys`: what a key press or a paste does on each screen;
- `pipeline`: the deploy and restart pipeline as a state machine driven by
  the outcomes of API calls;
- `deploy`: VM sizing, the deploy/restart/probe shell commands;
- `envs`: `.env` parsing, env-var merging and shell quoting;
- `turn`: folding a streamed LLM turn into one response;
- `schema`: JSON trees and the Kimi/Moonshot schema fix-up;
- `agent`: the fix agent's tools, how each tool call is planned and answered;
- `auth`, `api`, `naming`, `provider`, `pricing`, `spillover`,
  `eyes`, `audio`, `recipe`, `text`: the smaller pieces.

`app/` is the executable around it: the terminal (crossterm, ratatui), the
HTTP client, OAuth, files, audio and the async tasks that perform the
pipeline's actions.
