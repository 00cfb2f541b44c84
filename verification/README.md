# rewire_viewer

The data logic of the Rewire viewer (a Rerun viewer for ROS 2 bridges), written in
Verus and verified: reading text columns out of Arrow string arrays, building the
entries of the Topics and Nodes panels, the rows and column orders of their tables,
the integer and text parts of the Diagnostics entries, the sortable-header decisions,
decimal parsing of counts, and the choice of the viewer-control address.

- `src/` — the verified library.
- `tests/` — its tests.
- `app/` — the program around it: the Rerun/egui UI, the gRPC and HTTP services,
  port probing, and the floating-point parts of the Diagnostics panel.
