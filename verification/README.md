# bewegung

The logic of a travel-diary web application that runs in the browser on a
SQLite dataset: which page shows what, how the chosen filters narrow the SQL
queries, how the page address is read and written, how query results are
shaped for the templates, how the settings are grouped, and how the page
state carries over from one page to the next.

- `src/` is the verified library (Verus). Each module states its behaviour over
  `Seq`/`Map` models; the public proof functions whose names begin with `law_`
  state properties of the library as a whole.
- `app/` is the browser side: the WebAssembly entry points, the SQLite engine
  (raw FFI), Tera rendering, browser storage and fetches.
- `tests/` runs the library on concrete inputs.
