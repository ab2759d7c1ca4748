# playback

The rules of a Spotify playback client that plays either through a native
streaming player of its own or through whatever device the Web API addresses.

- `src/` holds the rules, verified with Verus: which of the two players a command
  goes to, what is sent, how the state of playback changes with each answer, and
  what the rest of the program is asked to do.
- `tests/` runs the rules on concrete values.
- `app/` performs them: it asks the Web API, drives the native player and hands
  the answers back.

The development dependency `vergen` is used by no test. It pins the version that
the build script of `librespot-core` takes, as that script does not compile with
later ones.

A command runs in steps. A step takes the state and what the program reports at
that moment, changes the state, puts what is to be done into an `Outbox` and
returns the request to make next, if any. The answer to that request is the input
of the following step. `src/laws.rs` states what every step keeps; the laws of one
module stand at its end.
