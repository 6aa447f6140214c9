# rustynotes

The logic of RustyNotes, a local-first markdown notes editor, as a library
whose behaviour is stated in contracts and proved with Verus.

- `src/` — the verified library:
  - `common` — the data model (file-tree nodes, search hits, modes, theme
    data) and the defaults of configuration fields;
  - `text`, `paths` — text and path helpers (lines, trimming, last
    components, stems, breadcrumb segments, configuration paths);
  - `recent`, `windows` — the recent-files and recent-folders lists, the
    map from open files to their windows, and a file window's address;
  - `tree`, `navigation` — the markdown and name filters of the file tree,
    the order of directory listings, the sidebar, Miller columns and
    breadcrumb state;
  - `files` — markdown paths, file-command errors, folder search, change
    events;
  - `markdown`, `export` — rendering through comrak with code highlighting,
    and HTML export;
  - `update` — release evaluation, the shared update state and what the
    interface shows of it;
  - `session`, `onboarding`, `settings`, `theme`, `menu` — the editing
    session and its save rules, first-run state, the settings window, theme
    resolution and CSS properties, and the application menu.
- `tests/` — tests of the library.
- `app/` — a command-line shell that does the file, configuration, network
  and watching I/O around the library.
