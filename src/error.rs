use vstd::prelude::*;

verus! {

/// How a container engine process ended: its exit code, or none when it was
/// ended by a signal.
#[derive(Clone, Copy, Debug, PartialEq, Eq)]
pub struct ExitStatus {
    pub code: Option<i32>,
}

impl ExitStatus {
    /// A process succeeded when it exited with code zero.
    pub open spec fn spec_success(&self) -> bool {
        self.code == Some(0i32)
    }

    /// Whether the process exited with code zero.
    pub fn success(&self) -> (r: bool)
        ensures
            r == self.spec_success(),
    {
        match self.code {
            Some(c) => c == 0,
            None => false,
        }
    }
}

/// The ways an image operation fails.
#[derive(Debug)]
pub enum Error {
    /// The engine's build step exited unsuccessfully.
    BuildFailed(ExitStatus),
    /// The engine listed no image for the queried address.
    DockerImageIdNotFound(String),
    /// Pushing one address exited unsuccessfully.
    PushImageFailed(ExitStatus),
    /// Removing one address exited unsuccessfully.
    RemoveImageFailed(ExitStatus),
    /// A template could not be rendered with the data given; the renderer's
    /// own error.
    TemplateRenderFailed(handlebars::RenderError),
}

} // verus!
