# chess_covenant

A chess league on covenant transactions. Players register on a lane of the league, invite each other,
play, challenge illegal castles, claim draws and timeouts, and settle: the stake goes to the winner or
is split, records grow by a game, ratings move.

`src/` is the verified library. It decides what an operation does and leaves the outside work to the
caller:

- `text`, `error`, `hash`, `names`, `messages`: texts, refusals, BLAKE2b hashes, maps by name, mailboxes
- `moves`, `rating`, `status`, `game`: squares and workers, ratings, statuses, the state of a game
- `chain`, `signing`: transactions as plain values, their ids and digests, players' keys and signatures
- `plan`, `dialogue`: what a transaction builder is asked for, and how an operation asks for it
- `arena`: the league, its players, the game in progress, and the record of transactions
- `league`, `play`, `endgame`, `settlement`: the operations on the arena
- `orchestrator`: the operations from a player's side
- `laws`: what holds across operations

An operation takes the replies to its requests so far. `Err(Halt::Need(request))` asks for the next
one and leaves the arena as it was; `Err(Halt::Refused(error))` and `Ok` end it.

`app/` carries the requests out on Argent contracts and shares an arena between players. `tests/` plays
whole games against a simulated chain.
