# rivulets

A small dataflow framework for audio pipelines: elements exchange payloads of
items through databuses, and nodes join and split streams.

- `src/` is the verified library (Verus). It holds the databus state machines
  (`ring_buffer`: one producer and several consumers reading the same stream at
  their own pace, with packet boundaries; `slot`: one payload at a time, written,
  optionally transformed in place, then read once by every consumer), the
  participant registry with its packed registration byte, payload bookkeeping,
  ports and requirements, stream information, and the per-step computations of
  the elements (`constant`, `gain`, `map`, `cast`) and nodes (`mixer`,
  `splitter`, `channel_splitter`). Each acquisition returns `None` where the
  participant has to wait.
- `app/` shares a databus between tasks behind a lock, parks and wakes
  participants, runs elements and nodes in loops, and holds the elements built
  on fundsp audio nodes.
- `tests/` exercises the library on concrete values.
