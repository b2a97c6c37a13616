//! An Intel 8080 processor core with a memory bus, an interrupt latch and a
//! video-memory sampler, for driving a Space Invaders arcade machine.
//!
//! The processor state is modelled by the ghost record [`Cpu`]; every
//! instruction carries a contract that pins its whole effect on that
//! record, and the single-step engine in [`dispatch`] ties each fetched
//! opcode to its effect and its tabulated cycle cost. The laws the machine
//! obeys across instructions are proved in [`laws`].

pub mod bytes;
pub mod flags;
pub mod state;
pub mod transfer;
pub mod alu;
pub mod control;
pub mod dispatch;
pub mod laws;
pub mod video;

pub use bytes::count_ones;
pub use bytes::parity8;
pub use state::Cpu;
pub use state::Flag;
pub use state::I8080;
pub use state::Register;
pub use state::RegisterPair;
pub use video::DISPLAY_HEIGHT;
pub use video::DISPLAY_SIZE;
pub use video::DISPLAY_WIDTH;
pub use video::VIDEO_BASE;
