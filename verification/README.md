# arcadia

The staff tooling of Infinity Bot List: the Discord bot staff use to review
bots, the RPC methods behind their actions, and the staff panel's API.

`src/` is the library, verified with Verus: every decision the bot and the
panel take — permission matching, the staff hierarchy, the RPC checks, the
login and session rules, the onboarding of new staff, the checks on partners,
shop items, vote credit tiers and holds, and the texts sent back — stands
there with a contract. Calls into `rand`, `uuid` and a few `std` functions sit
behind small trusted wrappers whose contracts say what those functions do.

- `perms` — permission strings (`namespace.name`, `~` negators, `global.*`).
- `rpc`, `rpc_handle`, `rpc_methods`, `rpc_menu`, `rpc_server` — RPC methods,
  their fields and forms, the checks before one runs, each method's own
  checks and writes, and the lists shown to staff.
- `panel`, `panel_types`, `staff`, `session`, `sessions`, `partners`, `shop` —
  the staff panel: refusals, the position hierarchy and disciplinaries, logins
  and the session table, partners, the shop and vote credits.
- `onboarding`, `bot_actions`, `bot_commands`, `managers`, `reports`,
  `explain` — the Discord bot's commands and events.
- `text`, `parse`, `ids`, `config`, `target_types` — shared pieces.

Where a request alternates database work and decisions (the RPC server, a
method's checks, executing a method from the panel), the library decides one
step at a time from the stage reached and what the database answered, and
`app/` performs the step.

`app/` holds what the library leaves out: loading `config.yaml`, the database
queries, and the file system. `tests/` run the library on concrete values.
