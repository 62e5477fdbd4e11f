# fermata

Music-theory and MIDI types with verified behaviour.

- `src/pitch.rs`: note letters, accidentals and pitch classes, with their
  letter and semitone offsets.
- `src/scale.rs`, `src/scale/diatonic.rs`: scale degrees, scale kinds and their
  modes, rooted scales; the diatonic scale and its seven modes.
- `src/general_midi.rs`: the General MIDI instrument and percussion maps.
- `src/midi.rs` and `src/midi/`: MIDI messages, their encoding and decoding
  (with running status), controller and channel-mode numbers, and the proofs
  that encoding and decoding undo each other (`src/midi/round_trip.rs`).
- `app/`: the command-line program, which prints two scales and records MIDI
  input through `midir`.

Every function in `src/` carries a contract that Verus proves.
