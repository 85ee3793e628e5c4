pub mod codec;
pub mod errors;
pub mod p1;
pub mod p2;

pub use codec::Compressable;
pub use errors::BlstErrorCode;
pub use errors::Error;
pub use p1::blst_p1_add_or_double;
pub use p1::blst_p1_uncompress;
pub use p1::BlstP1Element;
pub use p2::blst_p2_add_or_double;
pub use p2::blst_p2_uncompress;
pub use p2::BlstP2Element;
