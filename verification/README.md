# actionbook (app command logic)

The decision logic of `actionbook app`, which drives Electron desktop
applications over the Chrome DevTools Protocol, written in Verus.

- `src/` — the verified library: target classification and port scanning for
  `app attach` (`endpoint`), application selection (`apps`), the `app list`
  report (`report`), DevTools reply checks (`cdp`), session paths and restart
  decisions (`session`), argument checks (`command`), JSON documents as far as
  they are read (`json`), and character-level helpers (`text`).
- `app/` — the I/O around it: HTTP probes, session files, terminal output, and
  the command loop over the rest of the program's browser layer.
- `tests/` — tests of the library on concrete values.
