# fir_filter

Finite impulse response filter design by the windowed-sinc method.

- `src/` is the verified core (Verus): the filter-order rule (`order`),
  the exact time grid of the taps in half-sample units (`sinc`), the window
  kinds (`window`) and the half-power (-3 dB) frequency search (`lowpass`).
- `app/` is the floating-point part of the design built on that core:
  sinc values, window shapes, lowpass/highpass/bandpass/bandstop
  coefficients, convolution and frequency response.
- `tests/` exercises the verified core.
