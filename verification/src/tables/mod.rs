pub mod avar;
pub mod cbdt;
pub mod cblc;
pub mod cff;
pub mod cmap;
pub mod colr;
pub mod cpal;
pub mod ebdt;
pub mod eblc;
pub mod fvar;
pub mod head;
pub mod hhea;
pub mod hmtx;
pub mod hvar;
pub mod kern;
pub mod loca;
pub mod math;
pub mod maxp;
pub mod name;
pub mod os2;
pub mod post;
pub mod sbix;
pub mod stat;
pub mod svg;
pub mod vorg;
pub mod wasm;
