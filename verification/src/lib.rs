//! A dialogue-textbox engine: line sequencing, timed fade-in reveals, an
//! animated advance indicator, and the procedural quad/triangle geometry
//! that backs the textbox visuals.
//!
//! All quantities are plain integers: times are milliseconds, color channels
//! and blend factors are thousandths (0 through 1000), and vertex positions
//! are pixels (or thousandths of a pixel where sub-pixel motion matters).
//! The rendering substrate that turns these values into screen output is an
//! external collaborator and lives outside this crate.

pub mod color;
pub mod dialogue;
pub mod fade;
pub mod indicator;
pub mod mesh;
pub mod textbox;

pub use color::Rgba;
pub use dialogue::Effect;
pub use dialogue::TextBox;
pub use fade::TextBoxMesh;
pub use fade::TextBoxText;
pub use mesh::Geometry;
pub use mesh::Vertex;
pub use textbox::TextBoxView;
pub use textbox::TextLineView;
