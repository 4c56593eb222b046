//! Verified core of a static build of the Leptonica image library and the
//! Tesseract OCR engine: the handle rules for native image collections, the
//! literal source patches, and the build plan with its link directives.

pub mod patch;
pub mod pixa;
pub mod vendor;
