# luatalk

A library that models articles written for LuaTalk (pages of chat messages,
each spoken by a guest, the host, the system, as a reply or as a bond story),
converts them to and from an intermediate form that is dumped to and loaded
from JSON, and exports them to the JSON format of MomoTalk Editor. Its
behaviour is stated in `requires`/`ensures` contracts and proved with Verus.

Layout:

- `src/model/domain.rs`: the article model and its operations (such as joining
  all pages into one).
- `src/model/dto.rs`: the intermediate form, the conversions both ways, the
  derivation of a local image path from a URL, and the round-trip laws.
- `src/model/momotalk.rs`: the MomoTalk export, its specification and laws.
- `src/cmd/`: the decisions of the command line program (input format, output
  paths, page file names, typst-cli format and version check, locale).
- `src/text.rs`, `src/talk.rs`: decimal numbers and padding; the Lua search path.
- `app/`: the command line program itself (arguments, files, network, Lua
  evaluation with `mlua`, JSON with `serde`), which calls the library.
- `tests/`: tests of the library on concrete values.
