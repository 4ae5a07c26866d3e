# drop_agent

The decisions of the Drop Mazter desktop agent, written in Rust and verified with Verus.

The agent sits in the tray, watches for the Fortnite window, and, on a hotkey, a menu item
or a request of the server, captures a region of that window and hands the picture to the
page on the same machine. No picture goes to the server. Started for the first time with
`--run-on-startup`, the agent also starts with Windows from then on.

- `src/` is the library. Every decision of the agent stands there with a contract, and
  every contract is proved:
  - `keynames`, `keybind`, `vk`, `hotkey`: keybinds such as `Ctrl+Alt+K`, the capture
    hotkey and its cooldown;
  - `window`, `status`: which window is the game, and what is known of it;
  - `capture`, `pixels`, `encode`: capturing a region step by step, black pictures, JPEG
    and Base64;
  - `json`, `protocol`, `token`, `link`: the messages, the login token and the config file
    that keeps it, and the connection from one event to the next;
  - `startup`, `shortcut`, `registry`, `uninstall`, `update`, `paths`: setting up, updating
    and removing the agent;
  - `tray`, `presence`: the menu, the icon, and what Discord shows;
  - `text`: the little of text processing that the rest needs.
- `app/` is the program around it: it performs what the library decides (windows, graphics,
  registry, network, files) and hands back what came of it.
- `tests/` runs the library on concrete values.

Functions whose names start with `law_` are proofs of what holds of the agent as a whole:
that a capture gives every handle back, that a token is used for ten minutes at most and
outlives a restart, that holding a hotkey down fires once, that a removal removes what was set up.

Outside crates are called through small wrappers that state what is relied on: `image` and
`base64` in `encode` and `tray`, `serde_json` in `json`.
