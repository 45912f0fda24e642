pub mod bitfield;
pub mod latch;
pub mod ringbuffer;
