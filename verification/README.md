# fuzzor

The decision logic of a continuous fuzzing infrastructure, verified with
Verus, and the I/O around it.

- `src/` (verified): project configuration rules (`config`), corpus
  minimization plans (`minimizer`), coverage report commands (`coverage`),
  ensemble synchronisation plans and rounds (`ensemble`), the image build
  protocol of the docker builder (`builder`), the reproduction protocols for
  native Go and SemSan solutions (`native_go`, `semsan`), solution reports
  and monitor decisions (`reporter`, `monitor`), and the text handling they
  rest on (`text`, `paths`, `names`, `pattern`).
- `app/`: docker, processes, files, timers and channels.  Each protocol is a
  state machine in `src/` (`*_start`, `*_step`); `app/` performs the step it
  asks for and hands back the outcome.
- `tests/`: tests of the library on concrete values.
