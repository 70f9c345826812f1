//! Draws a fixed picture of SVG circles into a document tree.
pub mod dom;
pub mod drawer;
pub mod shape;
pub mod picture;
