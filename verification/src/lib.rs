//! Development of camera raw files.
//!
//! The library decides what happens to a raw file on its way to an image: which steps
//! the developer takes, which colour matrix and white balance apply, when a load is
//! given up, and where every sample ends up. Samples and coefficients themselves are of
//! any type; the program that computes with them passes its functions to
//! [`pipeline::develop_internal`].
pub mod binary32;
pub mod calibration;
pub mod cancel;
pub mod decode;
pub mod error;
pub mod mode;
pub mod pipeline;
pub mod plan;
pub mod planes;
pub mod profile;
pub mod scale;
pub mod text;
