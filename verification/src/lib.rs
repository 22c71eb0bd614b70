//! Event normalization for an input-device virtualization pipeline.
//!
//! A raw signal read from a physical controller is converted into a stable,
//! hardware-independent [`native::NativeEvent`] that downstream consumers
//! (remapping rules, target-device emulation) can reason about without knowing
//! the originating hardware protocol. The core of the conversion is the
//! stateful decoding of hat-switch (d-pad-as-axis) readings, where a
//! return-to-neutral reading is ambiguous unless the previous non-neutral
//! state is remembered.

pub mod capability;
pub mod native;
pub mod raw;
pub mod value;
