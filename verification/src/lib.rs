//! Candlestick ("K-line") chart core: the transform from raw candles to plot
//! primitives, the axis ranges of the two linked panels, hover lookup, drag
//! coupling and the per-frame state of the view.
//!
//! Every real-valued quantity (prices, volumes, plot coordinates, pixel deltas)
//! is held as a signed count of millionths, see [`fixed`].

pub mod chart;
pub mod fixed;
pub mod panel;
pub mod range;
pub mod real_data;
pub mod store;
pub mod utils;
