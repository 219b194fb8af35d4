# gw2fashionista

Guild Wars 2 fashion templates, verified with Verus.

The game shares the look of a character as chat links such as
`[&DwAAPQkBAA...]`: base64 text whose first byte names the kind of link and
whose rest is the payload. A wardrobe template gives a skin, a visibility flag
and (in dyeable slots) four dyes for each of 15 equipment slots; a travel
template does the same for 12 mounts, the glider, the doorway and the skiff.

## Layout

- `src/` – the library, every function with a contract proved by Verus:
  - `le`, `skins`, `slots`, `template`: little-endian fields, skins and dyes,
    the slots of each template, and templates with their payload codec
    (`from_bytes`/`serialize`), filters and merges;
  - `chatlink`, `error`: reading and writing chat links;
  - `ids`: the skin and dye ids a template refers to;
  - `slot_type`: wardrobe slots with their visibility bits;
  - `text`, `names`: whitespace handling and the validated names of fashions,
    characters and tags;
  - `fashion`, `filters`, `models`, `fixtures`: fashions and tags, text
    filters, the skins of a template by slot, named test links;
  - `gw2`, `gw2_data`: classification of API failures, retry policies, name
    lookups, doorways, equipment;
  - `service`, `secret`: the fashion service, each operation a run of requests
    to a repository whose next step the library decides; the errors of the
    store of secrets.
- `tests/` – tests of the library on concrete values.
- `app/` – what runs around it: the environment, the data directory, names files
  read with `toml`, asynchronous lookups, the waits between retries, and the
  loop that performs the service's requests.

The laws of the library are public proof functions whose names start with
`law_` (for example `template::law_payload_roundtrip`,
`names::law_fashion_name_stable`), next to the `ensures` of the functions.
