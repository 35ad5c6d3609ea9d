# shiguredo_nvcodec

Hardware video encoding (H.264, H.265, AV1) and decoding (H.264, H.265, AV1, VP8, VP9, JPEG) on
NVIDIA GPUs, with its decisions verified by [Verus](https://github.com/verus-lang/verus).

- `src/` is the verified library. It decides which driver call comes next, and what follows from
  the reply; it never calls a driver itself. Every operation gives back what it has acquired,
  whichever call fails. The exceptions stand in `ledger`: the driver refuses to take something back
  or to enter or leave a context on the way, or the parser of a new decoder cannot be created, where
  lock and context are destroyed twice.
- `app/` loads the driver libraries, makes the calls, and runs the worker thread of a decoder.
- `tests/` run the library against a simulated driver.

| Module | What it holds |
|---|---|
| `driver`, `sys` | The calls, what they leave behind, and the numbers of the drivers |
| `operation` | Operations that alternate calls and decisions, and release what they hold |
| `trace`, `ledger`, `runs` | What holds of whole runs of an operation |
| `library` | Loading the driver libraries |
| `device` | Devices, device memory and streams |
| `decode`, `decoder`, `geometry`, `frame` | Decoding |
| `worker` | The worker that feeds a decoder, and the side that submits packets |
| `encode`, `encoder` | Encoding |
| `codec_info`, `survey` | What a GPU can do with each codec |
| `error`, `stats` | Errors and statistics |
