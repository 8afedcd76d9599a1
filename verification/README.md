# card_game

Tools for a card game: card text files are read into cards, kept as a JSON
collection, and printed as sheets of cards in a PDF over generated
transparency images.

## Layout

- `src/` is the verified library, checked by Verus:
  - `text.rs`: character-sequence helpers (trimming, splitting, lines,
    searching, replacing) with their specifications.
  - `serialize.rs`: the card text format, from file text to cards, and the
    stable sort of attributes by name.
  - `serialize_0_2_0.rs`: the typed format's property markers (at byte
    offsets), the phrases of card text that become commands, and the text of
    action properties.
  - `pdf.rs`, `to_pdf.rs`, `deserialize.rs`: rules-text commands in their
    three forms, keyword splitting, narrowing text beside a symbol, and the
    placement of cards on pages.
  - `generate_alpha.rs`: the pixels of the background images.
  - `catalog.rs`: merging newly read cards into the collection, choosing the
    cards to print, and finding repeated names.
- `app/` is the unverified program side: files, JSON, PNG encoding, the PDF
  drawing through Python's `fpdf`, and the parts that compute in floating
  point.
- `tests/` runs the library on concrete cards and texts.
