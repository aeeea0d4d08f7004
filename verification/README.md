# rogue_core

The verified core of a turn-based roguelike.

- `src/game/table.rs`: a table holding at most one entry per type.
- `src/geometry/`: a generic three-dimensional vector and its arithmetic.
- `src/game/world.rs`: what the rules read of the world (entities, levels, cells).
- `src/game/rules/`, `src/game/moon_transform.rs`: rules that react to updates
  and actions (collisions, doors, moon-driven transformations).
- `src/game/turn.rs`: the decisions taken while an actor's turn is resolved:
  checking rules, committing actions, scheduling reactions, ending the turn.
- `src/game/ctx.rs`: building a level from its text drawing, and the steps of
  the game loop.
- `src/game/entities.rs`, `src/game/knowledge.rs`: entity prototypes and what
  the player knows of each level.
- `src/game/ansi_drawable.rs`: bringing a cell of the player's knowledge up
  to date.
- `app/`: floating-point geometry, random directions, and the knowledge traits
  that take a floating-point accuracy.

The entity-component store, the spatial hash, actor behaviours, the action
and turn schedules and the renderer are not part of this crate, so nothing
here runs the turn, commit and game loops: the steps in `src/game/turn.rs` and
`src/game/ctx.rs` are meant to be driven by the code that owns those parts.
Knowledge cells are updated into maps that keep the best tile per depth; those
maps are not part of this crate either, so the update returns its inserts.
