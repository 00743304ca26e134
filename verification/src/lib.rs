//! Compact owned containers for byte sequences, generic sequences and UTF-8
//! text, together with the verified layout arithmetic that a single-allocation
//! representation (length word and payload in one heap block) rests on.

pub mod bytes;
pub mod layout;
pub mod slice;
pub mod string;

pub use bytes::HeapBytes;
pub use slice::HeapSlice;
pub use string::FromUtf8Error;
pub use string::HeapStr;
pub use layout::block_layout;
pub use layout::header_size;
pub use layout::total_size;
