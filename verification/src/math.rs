pub mod fx;
pub mod trig;
pub mod vec;
pub mod geom;
