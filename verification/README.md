# botbowl_engine: the Prayers to Nuffle, verified

A Verus library with the procedures of a Blood Bowl engine that carry out the Prayers to
Nuffle (a D16 roll) and the favours that they grant for a drive: trapdoors opening in the
pitch (and the trapdoor check of a player), Friends with the Ref, Stiletto, Iron Man and
Knuckle Dusters.

The procedures work on a model of the game state that they read and change: players on
the pitch and in the dugouts, their skills, temporary skills and armour bonuses, the two
teams, the ball. The state keeps a well-formedness invariant (distinct identities, one
player per square) that every operation preserves. Around it stand the parts of the engine
that the favours meet: the end of a drive, which ends every favour; a move that can score;
and the sending-off of a fouling player, whose coach may argue the call.

Layout:

- `src/dice.rs`: dice results, requested rolls, roll targets.
- `src/model.rs`: teams, squares, skills, actions, procedure inputs, available actions.
- `src/player.rs`: player statistics and temporary effects, with their views.
- `src/gamestate.rs`: the game state, its view and invariant, and its operations.
- `src/builder.rs`: setting up game states.
- `src/procedures.rs`: `AnyProc`, `ProcState`, and the procedures the favours lead to.
- `src/nuffle_prayers_procs.rs`: the prayer and its favours, with their contracts.
- `src/laws.rs`: laws that relate the favours to the rest of the game.
- `app/lib.rs`: serde copies of the procedure types, with conversions both ways.
