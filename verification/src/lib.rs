//! Verified core of a Taylor-series trigonometry calculator.
//!
//! The library covers everything about the calculator that is exact:
//! integer factorials, the index-wise shape of the truncated sine and
//! cosine series (powers, factorial arguments, alternating signs), the
//! guarded classification of the derived tangent, term-count bounds,
//! plot sample counting, and the session state machine that decides when
//! results are current, stale, or rejected as invalid input. The
//! floating-point evaluation of the series and the rendering sit outside
//! the library and consume these pieces.

pub mod factorial;
pub mod plot;
pub mod series;
pub mod session;
