//! The decisions of a small touch-driven 3D scene viewer.
//!
//! The viewer shows a model, lets a finger drag the camera, colours a frame
//! rate label, reacts to one button, swaps the model's materials for lighter
//! ones and pauses its music while the application is suspended. This crate
//! holds what the viewer decides, as functions from plain values to plain
//! values; drawing, input and sound belong to the engine that hosts it.
//!
//! - [`fps`]: the colour and the text of the frame rate label.
//! - [`touch`]: which touch samples drag the camera, and from where to where.
//! - [`button`]: what the button shows and sends.
//! - [`lifetime`]: what becomes of the music when the application is
//!   suspended and resumed.
//! - [`material`]: the material for small screens, and how it takes the
//!   place of a standard one.
//! - [`color`]: colours with exact channels.
//! - [`binary64`]: measured quantities reach the crate as IEEE 754 binary64
//!   bit patterns, and are compared there as the numbers they denote.

pub mod binary64;
pub mod button;
pub mod color;
pub mod fps;
pub mod lifetime;
pub mod material;
pub mod touch;
