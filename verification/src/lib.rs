//! A verified interpreter for a reduced 32-bit load/store instruction set.
//!
//! The crate models a small machine: a register file of 32 signed words, a
//! flat byte-addressable memory holding big-endian words, and a program
//! counter.  A `Program` (two sequences of 32-bit words) is loaded into the
//! text and static-data regions, and the machine then fetches, decodes and
//! executes one word per cycle until it reaches the halt sentinel, leaves the
//! text region, or faults.
//!
//! Every architectural step is specified against a mathematical model of the
//! state (`model::MachineState`), and the laws the machine obeys — the zero
//! register stays zero, memory round-trips, alignment failures leave the
//! state unchanged, wrap-around arithmetic, and branch displacement — are
//! proved in `laws`.

pub mod arch;
pub mod cpu;
pub mod laws;
pub mod model;
pub mod program;
pub mod tokenize;
