# probably_bool

One logical boolean stored as a repetition code: every usable bit of the chosen
storage holds the same value. A received word is judged by its Hamming weight.
A width of `2 * flips + 1` corrects any pattern of at most `flips` arbitrary
bit flips.

## Layout

* `src/` is the verified library (Verus). It holds the storage trait and its
  implementations for `u8` through `u128` and arrays of them, encoding, bit
  counting, the correction capacity of a width, decoding under a model in which
  no bit flips, width sizing and storage recommendations, together with the
  laws that relate them (`lemma_*` proof functions next to the code they speak
  of).
* `app/` is ordinary Rust on top of the library: the floating-point parts of
  the interface (probabilities, the independent bit-flip model, priors,
  Bayesian posteriors, confidence-based sizing) and `Display` for the errors.
* `tests/` exercises the library from outside.
