# grand_music_cup

The server behind the grand music cup, a competition in which players submit tracks in
rounds and vote on them. The library in `src/` holds its logic, verified with Verus:

- `snowflake`: 64-bit ids that pack a timestamp, a machine id and a counter, and the
  counter that hands out their counter values;
- `utc`: instants in UTC within the range of the `time` crate;
- `model`: user accounts with their password checks (Argon2), and cups with their
  participants;
- `token`, `auth`: the claims of log-in tokens, when they are issued and when accepted;
- `discord`, `api`: signing in with Discord;
- `config`, `crypto`: the settings that follow from the configuration, random bytes and
  Base64 secrets;
- `web`: the paths of the pages, the cookies they set and the choices they make.

`app/` is the web server around it: the command line, the database, the HTTP calls to
Discord and Spotify, the JWT encoding and the HTML pages.
