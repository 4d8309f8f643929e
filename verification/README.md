# zed_xmake

The XMake extension for the Zed editor: it starts the `xmake_ls` language server and the debug
adapter, and turns tasks into debug scenarios.

The library under `src/` holds the decisions, verified with Verus. Where a decision needs the
editor or the machine, the library has a step with a request (`host::Request`); the reply leads to
the next step. `app/` performs the requests and is what the editor loads.

| Module | What it decides |
| --- | --- |
| `server` | the command that starts the language server, and how it is installed |
| `platform` | the release asset for a platform |
| `settings` | what the settings of the server and of a project say |
| `debugger` | where a debugger is looked for |
| `adapter` | the debug adapter of a session, and the kind of its request |
| `scenario`, `locator` | the debug scenario of a dialog or a task |
| `config`, `env_map`, `json`, `text` | the data in between |
| `host`, `world` | requests and replies, and a model of what answers them |

`search_laws`, `server_laws`, `adapter_laws` and `locator_laws` state and prove what the steps come
to while the editor and the machine stay as they are (a `World`), and what holds of each step
whatever is answered. `scenario_laws` follows a scenario from what it was made of to the session that
is started from it.
