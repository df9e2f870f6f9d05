# jirapp

The verified core of jirapp, a site-specific browser for Jira Cloud
(`*.atlassian.net`) built on Tauri: the library in `src/` is checked by Verus,
and `app/` is the Tauri shell around it.

## Layout

| Path | Contents |
| --- | --- |
| `src/settings.rs` | `Settings`, its defaults, and the Jira URL check (`https` + `atlassian.net` or a subdomain) for saving (`validate_jira_url`) and opening (`require_jira_url`) |
| `src/web_url.rs` | `Url`: scheme, host and serialization of a URL parsed by the `url` crate |
| `src/text.rs` | Unicode white space, `trim`, comparison, suffix test, decimal rendering |
| `src/json.rs` | JSON string literals: the escaping, well-formed contents and what they read back as |
| `src/sysmenu.rs` | the system-menu entries of the Jira window and how a `WM_SYSCOMMAND` is told apart |
| `src/inject.rs` | the wrapped user script and the script that pushes the settings into the page |
| `src/jira.rs` | same-tenant test, start URL, popup policy, window plans, close action, URL watch |
| `src/commands.rs` | save check, external links, settings window close, start-up choice |
| `src/state.rs` | `AppState`, the settings in force |
| `tests/` | tests of the library |
| `app/` | the Tauri program: windows, store, plugins, Win32 system menu |

Run `verus` on `src/lib.rs` to check the library; the contracts and the laws
(public `lemma_*` proof functions) state what is proved.
