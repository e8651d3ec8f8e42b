# memo_dioxus

A desktop memo tool: tabs are folders next to the program, memos are `.txt` files
inside them, and a search looks through all memos. The decisions of the tool are a
library verified with Verus; the window, the files and the dialogs are a thin program
around it.

- `src/text.rs`: strings as character sequences; splitting a text around a search
  string (with its laws), substring search, decimal numbers, path joining.
- `src/order.rs`: code point order of strings and a stable descending sort.
- `src/memo.rs`: memos, search hits, search reports, the memo menu, memo ordering.
- `src/folders.rs`: which folders are tabs, which files are memos, file names of
  paths, memo paths.
- `src/clock.rs`: the time in Japan and the time stamp that names a new memo (both
  through chrono).
- `src/icon.rs`: the window icon, decoded from the PNG file's bytes by `image`.
- `src/state.rs`: the window state and its transitions: window events, loading,
  focus, search, tab editing, memo creation; laws over them.
- `src/search.rs`: a search run, hit by hit.
- `src/page.rs`: the HTML page and style sheet of the window.
- `app/`: the dioxus window, file and folder access, dialogs, settings file.
