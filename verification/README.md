# thirtyfour

A WebDriver client, verified with Verus.

- `src/` is the library. Each function states what it does in its contract: which request a
  command is, what a response comes to, what a query finds, which steps a wait takes.
  - values: `json`, `wire`, `types`, `cookie`, `keys`, `duration`, `text`, `encoding`, `address`
  - the protocol: `request`, `command`, `action`, `reply`, `error`, `http`, `connection`
  - sessions: `session`, `webdriver`, `webdrivercommands`, `webelement`, `switch_to`,
    `action_chain`, `driver`, `config`, `print`
  - queries: `query`, `found`, `needle`, `conditions`, `poller`
  - components: `resolver` at run time, `bytoken` and `component` for the derive
  - browsers: `capabilities`, `firefox`, `cdp`, `manager`
- `tests/` runs the library, against a browser of its own making where it needs one.
- `app/` is the rest: sockets, clocks, files, driver processes, serde and syn.

Functions of other crates stand behind small functions that are marked
`#[verifier::external_body]`; the comment above each says what is believed of it.
