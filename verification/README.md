# alvr_dashboard

The decision logic of the ALVR dashboard, verified with Verus.

- `src/theme.rs`: the colour palette, corner radii, frame styles, the reset
  button's style and the global theme.
- `src/widgets.rs`: styles and state changes of the switch, button group,
  collapse button, navigation tabs and SteamVR status pill; the reset button's
  tooltip.
- `src/requests.rs`: the requests sent to the streaming server, and the debug
  page's choice of request.
- `src/dashboard.rs`: the state machine of the dashboard window.
- `app/`: the egui/eframe side, which paints what the library decides and feeds
  it each frame's clicks and server events.

The web build of the dashboard has no installation page, SteamVR launcher or
restart thread: `tabs` takes whether the build is native, and `app/` leaves
those parts out of the web build.
