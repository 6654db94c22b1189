# kanban

The server side of a small board application: accounts with session
tokens, projects with members, lists and tasks, served as a JSON API over
HTTP and stored in SQLite.

`src/` is the verified library. Every route is a small state machine
(`handler.rs` gathers them): it is started with the request, and each step
takes the database's answer to the previous action and returns the next
action — a read (`db::Fetch`), a write (`db::Stmt`), asking for the last
insert id, or answering the client. The `guard` module identifies the
caller from the bearer token and checks their right in a project; `db`
renders each read and write as SQL text with its bound values; `crypto`
issues session tokens and hashes passwords; `laws.rs` states what holds of
every request (unknown tokens get 401, missing rights 403, no write before
authorization, failed requests never commit, every handling ends).

`app/` is the Rocket server around it: it reads requests, runs the
library's state machines against an r2d2/SQLite connection, logs, and
writes the JSON replies.

Three handlers are named by the route groups but have no source: editing
a project (`project::put`), deleting a list (`list::delete`) and deleting a
task (`task::delete`). Since neither their paths nor their behaviour are
defined anywhere, they are not part of the library's route tables and the
server does not mount them.
