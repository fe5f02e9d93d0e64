# connect4

Connect Four played in the browser against a friend.

- `src/` is the library, verified with Verus: the grid and the detection of
  four in a row (`board`, `win`), the records and the rules of a game
  (`game`), laws about sequences of moves (`rules`), the decisions of the
  server around its database and event channels (`server`), those of the web
  client (`client`), and random identifiers (`ids`).
- `app/` is the program around it: a Rocket server over MongoDB, and, built
  for wasm32, the Yew client (`app/web`).
- `tests/` runs the library on concrete games.

The server reads `MONGO_URI` (also from a `.env` file) and `PORT`; the
client reads `C4_API_ROUTE` when it is built.
