# pxtally

pxTally classifies and tallies the pixels of an image by colour space (HSL,
OKLCH, OKLAB, CIELCH, CIELAB) and can recolour an image in OKLCH.

`src/` is the verified library (Verus):

- `angle`: hue intervals of whole degrees that wrap around the wheel;
- `filter`: the hue filters of the colour spaces;
- `tally`: distinct colours with their pixel counts, and their distribution
  over bins;
- `stats`: the bin that holds the median pixel;
- `output`: the image part of the report and the choice of outputs;
- `recolor`: recolouring one distinct colour at a time;
- `config`: the hue argument parser;
- `confirm`: the overwrite confirmation;
- `locale`: the choice of the interface language.

`app/` is the command-line program around it: argument parsing, image and
file I/O, colour conversions, the floating-point bins and statistics, and
the JSON report.
