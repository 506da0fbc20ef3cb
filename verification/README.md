# smooth_octopus

A frame-interpolation and re-encoding pipeline for videos and image
sequences, verified with Verus.

- `src/` is the verified library: command-line parsing (`cli`), the pipeline,
  its builder and context (`pipeline`), the planning of each stage
  (interpolation with the GFMSS or RIFE models, encoding with ffmpeg), the
  ffmpeg and ffprobe command lines (`ffmpeg`), the unpacking of zip archives
  (`archive`: the zip crate reads each entry from the archive's bytes, and the
  library plans the directories and files to create), path helpers (`fs`),
  text helpers (`text`) and the Python runtime's configuration (`python`).
  Floating-point values are carried as their IEEE-754 bit patterns
  (`fp::Fp32`); the arithmetic on them happens in the program.
- `app/` is the program: logging, the Python runtime download and setup,
  reading archives and writing the planned files, the launching of the
  planned processes, and the floating-point work.
- `tests/` runs the library on concrete inputs.

The layout of extracted frames is this project's own choice: the frames of
`<video>` go to `<video>_processing/frames`, numbered `%08d.png`, and they
are encoded back with the pixel format `yuv420p`
(`ffmpeg::extract_video_to_images_command`, `ffmpeg::images_to_video_command`).
