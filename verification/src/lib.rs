//! An interrupt-safe peripheral state and event-debounce engine.
//!
//! A hardware resource (an alarm, an input pin) is initialized once by the
//! foreground, moved into a mutually-exclusive holder, and from then on
//! shared with an interrupt context. This crate verifies the logic of that
//! pattern: the guarded holder, the single-bit event latch that crosses the
//! two contexts, the debounce state machine that turns noisy edges into
//! settled transitions, and the self-rearming periodic alarm controller.
//! The hardware capabilities themselves (edge-triggered input, one-shot
//! alarm, digital output) are modeled as simulated peripherals, so every
//! decision the engine makes is checked against an exact contract.

pub mod button;
pub mod debounce;
pub mod guard;
pub mod hw;
pub mod latch;
pub mod periodic;
pub mod tmp102;
pub mod world;
