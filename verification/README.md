# backgroundassets

The verified core of a binding to Apple's `BackgroundAssets` framework:
asset-pack status flags, the download model, the framework's error payloads
and their managed form, the checks that a URL download, a manifest or a file
lookup passes before the framework is called, how the answers of the
framework's asynchronous calls are read, and the decisions a downloader
extension takes on its handler's answers.

- `src/` is the library, written in Verus; every function carries a contract
  and the laws of the library are proof functions beside what they speak of.
- `tests/` runs the library on concrete values.
- `app/` is the binding itself: the calls into the Swift bridge, the
  asynchronous futures and event streams, the JSON forms of the bridge's
  payloads and the global handler registrations.
