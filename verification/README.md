# astreinte

The verified core of a small web service that organises on-call duty
("astreinte"): administrators create services and user accounts, users file
requests to be on call for a block (a week or a weekend) of their service,
and managers validate or refuse them; validating one request refuses the
others of the same block.

- `src/` is the library, checked by Verus: the records (`models`), the
  answers (`reply`), text handling (`text`), password hashing with bcrypt
  (`password`) and, under `routes`, the decision each request handler makes
  from what it read, with the laws that tie them together.
- `app/` is the HTTP server around it (axum, sqlx over SQLite): it reads the
  requests, runs the database statements the library decides on, and answers.
  The conversion of a tag hue to RGB, which works on floating point, lives
  there too.
- `tests/` exercises the library on concrete values.
