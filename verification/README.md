# glint_overlay

An overlay that is drawn into a game's windows: its shell and its browser hand
over shared textures through two pipes, and the overlay draws them before every
present, takes the player's input while it is shown, and keeps it from the game.

`src/` is the library, verified with Verus. It holds what the overlay decides:
which client gets which event, which messages and device readings reach the
game, which layers are drawn and in which order, what is detoured and when, what
happens to child processes, and what a present leaves behind.

- `event`, `event_sink`, `clients`, `server`: clients, their layers and requests
- `backend`: windows, their layers, and blocking the game's input
- `hook`: what the detoured functions decide, one module for each family
- `renderer`, `texture`, `vulkan`, `cef_frame`, `coop`, `capture`: drawing
- `int_map`: concurrent maps keyed by numbers

Contracts speak of the views of the types. Functions named `law_...` state what
holds across several functions. Calls of the system are closures, or steps that
the caller performs.

`app/` is the ordinary Rust around it: declarations of system functions, the
detours, the pipes, and the layout in floating point. What touches the graphics
card or another process comes from a carrier, through the trait in
`app/host.rs`.

`tests/` runs the library on given values.
