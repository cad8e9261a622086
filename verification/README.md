# chainner_ext

Image operations for chaiNNer's native extension, with their integer and combinatorial
core verified by Verus.

- `src/` is the verified library: images and n-dimensional images, fixed bit strings and
  cell grids, pixel-art upscalers (AdvMAME, Eagle, the 2xSaI family and hqx: which blend
  each output pixel takes, stated over the outcomes of the pixel comparisons so that it holds
  for any pixel type, and the block writes), ordered, error-diffusion and Riemersma
  dithering (threshold maps, kernels, error rows, the pseudo-Hilbert scan order of the
  `zhang_hilbert` crate, quantizer traits), the alpha-fill grid, nearest-neighbour scaling,
  snapshot decisions, a Python-style regex API over the `regex` crate with character
  positions, and the distinct colors of an image, collected in an `ahash` set.
- `app/` holds what Verus does not check: the floating-point image operations (blends,
  distance fields, gamma, resampling, the float side of palette extraction), files, the
  clipboard and the Python bindings. It calls the library for every decision it can hand
  over.
- `tests/` runs the library on concrete inputs.

The laws that the library proves stand as public proof functions next to the functions they
speak of (for example `lemma_hq3x_symmetric`, `lemma_kernels_diffuse_forward`,
`lemma_threshold_levels_distinct`, `lemma_color_key_injective`, `lemma_byte_pos_round_trip`,
`lemma_adv_mame_2x_mirror`, `lemma_split_is_nonempty_gaps`,
`lemma_fill_by_index_is_fill_by_pixels`).
