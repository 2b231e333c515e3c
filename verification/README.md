# steel_core block behaviours

A verified library of the behaviour of a few vanilla blocks: flower pots,
big dripleaves, eyeblossoms and nether fungi.

- `src/registry.rs`, `src/vanilla_blocks.rs`: blocks, tags, block states,
  positions and the values that behaviours hand back.
- `src/level.rs`: what behaviours read of a world (block states by
  position, build height).
- `src/flower_pot_block.rs`, `src/big_dripleaf_block.rs`,
  `src/eyeblossom_block.rs`, `src/nether_fungus_block.rs`: the behaviours,
  each a function from what the world shows to what the block does, with
  the laws that hold of them as proof functions.
- `src/random.rs`: the calls into `rand`.
- `app/lib.rs`: the computations in floating point (particle paths, sound
  pitch, bone meal chance, effect duration, entity height test).
