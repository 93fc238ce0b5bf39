//! Decision logic of a pdftoppm-style page renderer: command-line parsing,
//! page ranges, output names, memory limits, pixel conversion and the
//! run's exit status. Rendering and file output live with the caller.

pub mod cli;
pub mod decimal;
pub mod library;
pub mod memory;
pub mod pages;
pub mod raster;
pub mod status;
pub mod text;
