# cmx

Reading, writing and constructing ICC color profiles, with the byte-level
logic specified and proved with Verus.

An ICC profile is a 128-byte header, a tag count, a table of
(signature, offset, size) entries and the tag data they point to.  The library
holds a profile as its raw header bytes and an ordered map from tag signature
to tag record, reads it from bytes, writes it back (sharing identical tag data
and computing the MD5 profile ID when asked), and reads and writes each header
field.

## Layout

- `src/` — the verified library.
  - `profile/format.rs`, `profile/layout.rs` — what reading accepts and gives,
    and what writing produces, as spec functions.
  - `profile/raw_profile.rs` — `RawProfile`: `from_bytes`, `into_bytes`, the
    tag record layout.
  - `profile/roundtrip.rs` — reading what was written, and writing it again.
  - `profile/classes.rs` — the `Profile` enum and the device-class types.
  - `profile/tag_setter.rs` — `with_tag(..).as_raw(..)` and the tag capability
    traits.
  - `profile/checksum.rs` — the MD5 profile ID.
  - `header.rs`, `header/laws.rs`, `header/summary.rs` — header fields, what
    reading a field gives after writing it, and the header as text.
  - `signatures/`, `tag/` — the signature enumerations and tag types.
  - `icc.rs`, `language.rs`, `datetime.rs`, `bytes.rs`, `text.rs` — smaller
    pieces.
- `tests/` — tests run against the compiled library.
- `app/` — the `cmx` command, which prints a profile as TOML, and the
  floating-point helpers.

Tag payloads are held as raw bytes: the library reads, writes and shares them
as they are, and provides no typed encodings of curves, XYZ arrays or texts,
nor the builders of display and input profiles from RGB color spaces that
compute those payloads in floating point.  The TOML dump therefore shows each
tag's type signature and its payload in hex.
