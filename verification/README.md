# deur

A small web service that opens a door: signed-in users press a button, the visit is
logged, and a GPIO pin pulses the door opener. Admins manage the accounts.

- `src/` is the verified library: password hashing with Argon2i and checking against
  any stored Argon2 encoding, the reading of those encodings,
  session-token claims, who may edit or delete which account, the outcome of logins,
  the door-opening sequence as a state machine, and the minifier for style sheets and
  page templates.
- `app/` is the Rocket web server around it: routes, pages (maud), the PostgreSQL
  store (diesel), JSON Web Tokens, the GPIO pin, and file access for the minifier
  (`deur minify`).
- `tests/` runs the library on concrete inputs.
