# mars_raw_utils

Tools for the raw images of the Mars rovers, with the decisions of the
toolkit verified in Verus.

- `src/` is the verified library: instrument identification, the calibration
  manifest and the search for calibration files, the plans of the
  per-instrument calibrations (`CalStep` sequences), the inpainting fill
  order, the destretch look-up table, NavCam tile bookkeeping, and the
  queries, filters and listings of the remote raw image services. Each
  public function states its result in its `ensures`; the `pub proof fn`
  items state properties that relate several functions.
- `app/` is the program around it: reading the manifest and profiles,
  looking at the file system and the environment, HTTP requests, and the
  pixel work that runs on `sciimg` images:
  - `pipeline.rs` loads each raw image with its metadata sidecar, asks the
    library for the instrument's `CalStep` plan and carries every step out
    (decompanding, flats, debayering, hot pixel correction, cropping,
    scaling, inpainting and destretching);
  - `processing.rs` holds the stand-alone tools: focus merging, the
    difference GIF, debayering, hot pixel detection and the decorrelation
    stretch;
  - `imaging.rs` applies the library's inpainting fill order and destretch
    table to image buffers;
  - `navcam.rs` reassembles Mars 2020 NavCam tiles: tile ids, canvas size,
    paste positions, matching order and compared windows come from the
    library, the level matching and pasting run on the pixels;
  - `remote.rs`, `fetch.rs`, `location.rs` and `weather.rs` talk to the
    raw image, latest data, waypoint and weather services;
  - `composite.rs` projects several images into one map through their
    camera models;
  - `main.rs` is the command line.
- `tests/` runs the library on concrete values.

Calls into outside crates (`url`, `regex`, `str::to_uppercase`) stand behind
small trusted wrappers whose contracts name their results.
