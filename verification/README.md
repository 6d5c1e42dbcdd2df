# headless-xi

A client for the search server of Final Fantasy XI private servers (LandSandBoat and
Horizon XI) that lists the players online ("/sea all"), written in Verus.

`src/` is the library. Every function in it is verified except one: `crypto::md5_bytes`,
which hands its input to the `md-5` crate and is trusted to return the MD5 digest of it
(the library also relies on std's `String::push` appending one character). The modules:

- `bits`: bit fields read least- or most-significant-bit first.
- `bytes`: little-endian integers in byte buffers.
- `blowfish`, `blowfish_consts`: the server's Blowfish variant; decryption is proved to undo
  encryption and the other way round.
- `crypto`: MD5-keyed packet sealing and opening; a sealed request or response is proved to
  open to the framed packet under the same key.
- `request`: the "/sea all" request and the accepted packet lengths.
- `search`, `player`: decoding the bit-packed player records of a search-list packet.
- `session`: the decisions of one search: what to send, what to do with each packet, when a
  failed read ends the search.
- `display`, `names`, `table`, `text`: the text printed by the command-line client, with
  job names and the zone names of LandSandBoat's zone numbering.

`app/` is the command-line client: argument parsing, the TCP connection and the printing.
`tests/` runs the library on concrete packets.
