# canvas_demos

The rules of two programs that run on a browser canvas, written and proved in
Verus: a brick-breaking game, and a path tracer with a hardware and a software
renderer.

Floating-point values cross the boundary of the library as IEEE 754 bit
patterns. What depends only on their order and sign (every comparison, minimum,
maximum, absolute value and clamp by which the programs go) is decided in the
library, on the patterns. Sums, products, roots and angles are worked out by the
caller, which hands the results over; where it compares values itself, it only
tests that a function of the library may be called.
Where arithmetic and decisions alternate (a frame of the game, a light path, a
frame of the software renderer), the library is a state machine that says what
is to be worked out next.

- `src/bits32.rs`, `src/bits64.rs`: the order on bit patterns.
- `src/block_breaker/`: the wall, the sparks, the state of the game, its frames
  and what is drawn.
- `src/ray_tracer/`: random numbers and their period, materials, the scene and its intersections,
  light paths, the two renderers and the parameter block of the shader.
- `tests/`: the library on concrete values.
- `app/`: the programs themselves: page, canvas, input, clock, graphics device
  and floating-point arithmetic.

Built for the browser, `app/` exports two functions, `startBlockBreaker` and
`startRayTracer`. Nothing starts by itself when the module is loaded: the page
calls the one whose program it wants to show.

One function is trusted without proof: the one that calls `bytemuck` for the
bytes of the parameter block.
