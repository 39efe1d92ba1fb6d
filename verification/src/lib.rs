pub mod apa106led;
pub mod colour_functions;
pub mod cube;
pub mod encoder;
pub mod gamma;
