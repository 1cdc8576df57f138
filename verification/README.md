# wishlist

A wish-list web service: users register and log in, post wishes that are
public, for friends, or private, and ask each other for friendship.

- `src/` is the verified library (Verus). `models` and `schema` hold the
  records and their text columns; `filter` a small query language over rows
  with its meaning (`Filter::holds`) and an evaluator; `policy` who may see
  which wish; `queries` the filters the handlers use; `protocol` the commands
  a handler issues and the replies it gets; `auth` and `services` one step
  function per request handler; `laws` the properties that span handlers.
- `app/` is the Rocket server. It runs each step function, performs the
  commands with diesel on PostgreSQL and with the cookie jar, and renders the
  pages with Tera templates.
- `tests/` runs the handlers against an in-memory stand-in for the database.
