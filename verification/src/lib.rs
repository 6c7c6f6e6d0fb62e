//! Scaffolding for a small scene system: a main-window state holder and
//! a scene manager that keeps an ordered list of cameras.
//!
//! The types here hold the state itself. Process-wide sharing — the
//! exactly-once singleton accessors and the locks that guard the state —
//! is left to the embedding application, which wraps these types in a
//! standard lazy-initialization cell.

pub mod camera;
pub mod mainwnd;
pub mod scenemanager;
