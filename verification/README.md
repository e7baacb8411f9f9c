# bindata_cli

A front end for a store of byte streams: a terminal user interface that lists, creates,
writes, reads and uploads to streams, and single commands that do the same from a shell.

The library under `src/` makes the decisions and is verified with Verus:

- `state` holds the state, the events and the actions; `transition` states what each event
  does; `step` carries it out.
- `session` sets the order in which the screen is drawn, terminal events are taken and
  actions are performed.
- `listing` reads a directory listing into the list of streams and their metadata.
- `screen` works out what is shown, `layout` where.
- `command` words the reports of the single commands; `settings` sets the storage up.
- `payload` and `text` deal with bytes and characters.
- `listing_laws`, `step_laws`, `session_laws` and `screen_laws` prove what holds of all of
  these together.

The program under `app/` does the input and output: it carries out what the session orders,
hands the outcomes back and draws the screen. Started under the name `cli` it is the terminal
user interface, under any other name it runs a single command.
