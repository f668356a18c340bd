# astrobox_plugin

The JSLab watch manager, an AstroBox plugin that lists, downloads, uploads
and deletes the JavaScript files of the JSLab app on a watch.

- `src/` is the verified library: the plugin state and its log (`state`), the
  commands behind UI clicks (`events`), the watch's replies (`messages`), the
  requests sent to the watch (`protocol`), the JSON documents they travel in
  (`json`), the page content (`view`) and its element tree (`layout`), string helpers (`text`) and the
  properties that hold across handlers (`laws`). Every handler changes the
  state and returns the effects to carry out.
- `app/` is the plugin itself: the host's entry points, the shared state, the
  file system, the element tree of the page and the interconnect messages.
- `tests/` runs the library on concrete values.
