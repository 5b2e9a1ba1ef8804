# ppapi

Bindings to the Pepper plugin API, written in Verus so that what the library
decides around each browser call is proved against its contract.

- `src/` is the verified library. A function that stands for a browser call
  takes the browser's reply as an argument and reads it into typed values; a
  function that prepares GL work gives back the GL calls to make.
- `app/` is the browser side: the calls through the interface tables, the
  instance threads, and the plugin's callbacks, driven by the library.
- `tests/` runs the library on concrete values.

Outside crates: `url` parses URLs, `hyper` reads HTTP methods and status
codes, and `httparse` reads response header blocks; each call sits behind a
small trusted wrapper whose contract states what the crate's source shows.
