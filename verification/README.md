# sbc

Configuration and frame geometry of a Bluetooth SBC (sub-band codec)
encoder and decoder, verified with Verus.

- `src/params.rs`: the codec parameters and their byte codes.
- `src/config.rs`: the configuration record, how it is built from the
  parameters, and the frame length, frame duration and code size it gives.
- `src/codec.rs`: `SBCEncoder` and `SBCDecoder`, each holding its record.
- `src/laws.rs`: properties proved of the record and the geometry.
- `app/`: handles that run the BlueZ SBC C library (`libbluezsbc`) on a
  verified configuration; it must be linked against that library.
