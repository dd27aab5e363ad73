//! What can stop a frame.
//!
//! None of these is recovered from within the frame: the frame is abandoned
//! and the error handed to the host, which draws nothing.

use vstd::prelude::*;
use vstd::string::*;

verus! {

/// A texture, buffer or shader request that could not be met.
#[derive(Clone, Debug, PartialEq, Eq)]
pub enum ResourceError {
    /// The backend refused to allocate a texture of the requested size. It
    /// carries the backend's message.
    TextureAllocation(String),
    /// The backend reported that the upload of texels failed. It carries the
    /// backend's message.
    TextureUpload(String),
    /// The backend could not create the vertex and index buffers of the
    /// frame. It carries the backend's message.
    BufferAllocation(String),
    /// The backend could not build the shader program. It carries the
    /// backend's message.
    ShaderBuild(String),
    /// A draw was asked for while no texture is bound.
    TextureUnbound,
    /// A frame was started before the interface's atlas was known.
    AtlasMissing,
}

/// Why a frame was abandoned.
#[derive(Clone, Debug, PartialEq, Eq)]
pub enum BridgeError {
    /// A GPU resource could not be had.
    Resource(ResourceError),
    /// The interface produced no mesh that can be drawn.
    UiTessellation,
    /// Binding the shader or the texture, or submitting the draw, failed. It
    /// carries the backend's message.
    Pipeline(String),
}

impl BridgeError {
    /// The backend's message, where the error came from the backend.
    pub open spec fn spec_backend_message(&self) -> Option<Seq<char>> {
        match self {
            BridgeError::Resource(ResourceError::TextureAllocation(m)) => Some(m@),
            BridgeError::Resource(ResourceError::TextureUpload(m)) => Some(m@),
            BridgeError::Resource(ResourceError::BufferAllocation(m)) => Some(m@),
            BridgeError::Resource(ResourceError::ShaderBuild(m)) => Some(m@),
            BridgeError::Pipeline(m) => Some(m@),
            _ => None,
        }
    }

    /// The words that come before the backend's message, or that stand alone
    /// where there is none: the kind of error and what failed.
    pub open spec fn spec_headline(&self) -> Seq<char> {
        match self {
            BridgeError::Resource(ResourceError::TextureAllocation(_)) => {
                "resource error: texture allocation: "@
            },
            BridgeError::Resource(ResourceError::TextureUpload(_)) => {
                "resource error: texture upload: "@
            },
            BridgeError::Resource(ResourceError::BufferAllocation(_)) => {
                "resource error: buffer allocation: "@
            },
            BridgeError::Resource(ResourceError::ShaderBuild(_)) => {
                "resource error: shader build: "@
            },
            BridgeError::Resource(ResourceError::TextureUnbound) => {
                "resource error: no texture is bound"@
            },
            BridgeError::Resource(ResourceError::AtlasMissing) => {
                "resource error: the interface has no atlas yet"@
            },
            BridgeError::UiTessellation => {
                "tessellation error: the interface produced no mesh to draw"@
            },
            BridgeError::Pipeline(_) => {
                "pipeline error: "@
            },
        }
    }

    /// One line for the log: the headline, followed by the backend's message
    /// where there is one.
    pub open spec fn spec_describe(&self) -> Seq<char> {
        match self.spec_backend_message() {
            Some(message) => self.spec_headline() + message,
            None => self.spec_headline(),
        }
    }

    /// The backend's message, where the error came from the backend.
    pub fn backend_message(&self) -> (m: Option<&String>)
        ensures
            m matches Some(s) ==> self.spec_backend_message() == Some(s@),
            m is None <==> self.spec_backend_message() is None,
    {
        match self {
            BridgeError::Resource(ResourceError::TextureAllocation(m)) => Some(m),
            BridgeError::Resource(ResourceError::TextureUpload(m)) => Some(m),
            BridgeError::Resource(ResourceError::BufferAllocation(m)) => Some(m),
            BridgeError::Resource(ResourceError::ShaderBuild(m)) => Some(m),
            BridgeError::Pipeline(m) => Some(m),
            _ => None,
        }
    }

    /// Whether the error is a resource failure.
    pub fn is_resource(&self) -> (b: bool)
        ensures
            b == (self is Resource),
    {
        match self {
            BridgeError::Resource(_) => true,
            _ => false,
        }
    }

    fn headline(&self) -> (text: &'static str)
        ensures
            text@ == self.spec_headline(),
    {
        match self {
            BridgeError::Resource(ResourceError::TextureAllocation(_)) => {
                "resource error: texture allocation: "
            },
            BridgeError::Resource(ResourceError::TextureUpload(_)) => {
                "resource error: texture upload: "
            },
            BridgeError::Resource(ResourceError::BufferAllocation(_)) => {
                "resource error: buffer allocation: "
            },
            BridgeError::Resource(ResourceError::ShaderBuild(_)) => {
                "resource error: shader build: "
            },
            BridgeError::Resource(ResourceError::TextureUnbound) => {
                "resource error: no texture is bound"
            },
            BridgeError::Resource(ResourceError::AtlasMissing) => {
                "resource error: the interface has no atlas yet"
            },
            BridgeError::UiTessellation => {
                "tessellation error: the interface produced no mesh to draw"
            },
            BridgeError::Pipeline(_) => {
                "pipeline error: "
            },
        }
    }

    /// One line for the log: which kind of error it is, what failed, and the
    /// backend's message where there is one.
    pub fn describe(&self) -> (text: String)
        ensures
            text@ == self.spec_describe(),
    {
        let mut text = String::new();
        text.append(self.headline());
        assert(text@ =~= self.spec_headline());
        match self.backend_message() {
            Some(message) => {
                text.append(message.as_str());
            },
            None => {},
        }
        text
    }
}

} // verus!
