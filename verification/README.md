# yomua

The rules of a chat bot that plays characters on OneBot 11, written in Verus and
proved.

- `src/domain`: characters, moods, emotions, relationships, memories, messages and
  quiet hours.
- `src/application`: what the bot decides. Whether a character answers and how fast,
  what it remembers, what a language model is told, what administrators, plugins and
  the control socket may do.
- `src/adapters/onebot`: messages in and out, and when to connect again.
- `src/ctl.rs`: the command line of `yomua-ctl`.
- `src/json.rs`, `src/text.rs`, `src/scalar.rs`, `src/time.rs`: documents, texts,
  doubles and points in time as the rules see them.
- `app`: sockets, files, clocks, storage interfaces and floating-point arithmetic
  around the library, and the program `yomua-ctl`.
- `tests`: the library at work on concrete values.

Every function of `src` says in its contract what it returns. The functions that
call into `serde_json`, `chrono`, `rand` and the parts of `std` without a contract of
their own are marked `external_body`; above each stands what is claimed of the call.
What spans several functions is stated in the public proof functions at the end of
the modules.

A double is held by its bits (`Scalar`): the library compares and bounds doubles,
and leaves sums and logarithms to its callers.
