# carbo

The decision logic of a windowed GPU application, verified with Verus.

The application runs three loops on three threads: the windowing event loop
(main thread), the application loop, and an executor; each window's renderer
runs on a thread of its own. The library holds what these loops decide and
the program runs the loops:

- `src/app.rs`: the application state machine: for each event, the new state,
  the effects to carry out (commands for the executor, requests to the window
  and its renderer) and whether the loop goes on; with its laws.
- `src/renderer.rs`: the renderer state machine: surface configuration, scale
  factor and frame count; what to draw or reconfigure for each command.
- `src/surface.rs`: surface configuration; extents are never zero.
- `src/executor.rs`: commands for the executor and the event reporting a
  renderer launch.
- `src/winit_app.rs`: how the event loop forwards its callbacks and carries out
  its commands.
- `src/flows.rs`: properties that span several of the above.
- `app/`: the program: threads, channels, winit, wgpu and vello.
