# fl_caption

The verified core of an offline real-time captioning engine.

- `src/` is the library, verified with Verus:
  - `capture`: the streaming audio window of a captioning session, a state
    machine that decides, for each chunk of audio, whether to wait, to ask a
    voice-activity detector, or to run the speech model, and on which audio
    (the most recent audio that fits the configured context length);
  - `language`: how the decoding language is chosen, with the token lookup
    in the tokenizer;
  - `setup`: parsing the model configuration and the tokenizer;
  - `report`: the status messages of a session (`Loading`, `Ready`,
    `Error`, `Exit`) and what a failed round does;
  - `mel`: the stored mel filter banks (checked for size), selection of a
    bank and decoding of its little-endian words;
  - `segment`: the status segments sent to the user interface;
  - `text_util`: character counts that can be merged, and the duplicate
    character total of a text.
- `app/` is the runtime around it: the receive loop of a session, model
  loading and feature extraction with candle, parallel counting with rayon,
  and the floating-point parts of segments and filter banks. Audio capture,
  voice-activity detection and the speech decoders come from the host
  application through the traits in `app/host.rs` and the model modules.
- `tests/` runs the library on concrete inputs.
