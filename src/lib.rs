//! Image lifecycle and build-artifact generation for container images made
//! from installed packages.
pub mod build_root;
pub mod error;
pub mod identifiers;
pub mod image;
pub mod render;

pub use build_root::{BuildContext, DockerBuildRoot, Platform};
pub use error::{Error, ExitStatus};
pub use identifiers::{expanded_identifiers, join, tagged_identifier};
pub use image::{Credentials, DockerImage, EngineOp, ImageBuilder, TagRun};
pub use render::TemplateData;
