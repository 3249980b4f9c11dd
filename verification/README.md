# pastebee

A small paste-and-embed web service, split in two:

- `src/` is the verified library (Verus). It holds every decision the service
  makes: which characters an identifier or a colour may hold, how random
  identifiers are drawn, how a password is checked against the stored Argon2
  hash, when the session cookie is set or removed, which page or status a
  request is answered with, and how stored rows become template values.
- `app/` is the Rocket server around it: routes, cookies, the SQLite pool,
  files and templates. It reads and writes, and asks the library what to do.

Modules of the library:

- `text`, `base62`, `decimal`: character classes, the identifier alphabet,
  decimal notation.
- `embeed::hex_color`: `#rrggbb` colours.
- `pastebee`: the service (`embeds`, `gateway`, `content`, and the older
  `login` section).
- `pastebin`: the minimal paste service.
