# raw_develop

Development of camera raw files, with its decisions verified by Verus.

`src/` is the verified library.

- `pipeline`: the stages of a development in their order, with the points at which a
  load can be cancelled. What a stage computes in floating point, or asks of the decoder,
  comes in as a function.
- `plan`, `mode`: what the developer and the tone stage are to do with a file.
- `calibration`: the choice of white balance and colour matrix.
- `planes`: reworking the samples and putting the RGBA image together.
- `scale`, `binary32`: the scale of a fast demosaic. The decision is made in integers
  and proved to be the one that single precision arithmetic gives.
- `cancel`, `error`: the generation counter and the errors.
- `decode`: orientations, processing steps and kinds of raw data, as `rawler` has them.
- `profile`, `text`: the command line of the profiling program.

`app/` is ordinary Rust around it: the floating-point tone stage, rawler's decoders and
developer, and the profiling program. What the surrounding application contributes is the
trait `Host`.

`tests/` runs the library, with small DNG files for the decoder.
