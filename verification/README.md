# fastpad

The window logic of a small notes editor, verified with Verus: the tabs, the sidebar with its
Notebook and Search views, text search and replace, the Markdown preview, and what screen readers
are told of them.

- `src/` is the verified library. It holds no window: messages come in as numbers, measurements as
  arguments, and what is to be drawn or done comes out as values. Each function's contract says
  exactly what it returns or changes. Laws over several functions are public proof functions, most
  of them in the modules whose names end in `_laws`.
- `app/` owns the windows. It hands messages to the library and carries out what it answers with
  Win32 calls. What the rest of the editor provides is behind one trait, `Host`.
- `tests/` runs the library on concrete values.

The modules, from the bottom up:

- `geometry`, `text`, `paths`, `messages`, `drawing`: rectangles, strings, paths, window messages
  and drawing steps.
- `theme`, `palette`, `item_icon`, `panel`, `row_list`, `list_paint`: colors, icons, sizes and
  lists of rows.
- `document`, `tabs`, `status`, `notification`: open documents and what the status bar says.
- `tree`, `tree_paint`, `open_editors`, `panel_cursor`: the rows of the Notebook view.
- `notebook_*`: the Notebook view.
- `search_*`, `option_toggles`, `text_search`, `text_replace`: the Search view and its searches.
- `side_panel`, `panel_drop`, `sidebar_accessibility`: the panel around the views.
- `preview_host`: the Markdown preview.
