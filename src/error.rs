use vstd::prelude::*;

verus! {

/// The kind of error generated by the encoding or decoding process for texture atlases.
#[derive(Copy, Clone, Debug, PartialEq, Eq, Structural)]
pub enum ErrorKind {
    /// The atlas image has an unsupported color space.
    UnrecognizedColorType,
    /// The texture atlas could not be opened
    CouldNotOpenTextureAtlas,
    /// The coordinate chart for the texture atlas is corrupted.
    CouldNotLoadCoordinateCharts,
    /// The image buffer for the texture atlas is corrupted.
    CouldNotLoadAtlasImageBuffer,
    /// The underlying image representation uses 32 bit floats instead of bytes vectors for the pixels.
    Got32BitFloatingPointImageInsteadOfByteImage,
    /// The image buffer for the texture atlas is missing.
    MissingImageBuffer,
    /// The coordinate charts for the atlas are missing.
    MissingCoordinateCharts,
    /// The image buffer for the texture atlas could not be encoded.
    CouldNotEncodeAtlasImageBuffer,
    /// The texture atlas container could not be written.
    CouldNotWriteTextureAtlas,
}

impl ErrorKind {
    /// The sentence that describes the error.
    pub open spec fn spec_description(self) -> Seq<char> {
        match self {
            ErrorKind::UnrecognizedColorType => "The image buffer has an unrecognized color format."@,
            ErrorKind::CouldNotLoadAtlasImageBuffer => "Could not load image buffer."@,
            ErrorKind::CouldNotLoadCoordinateCharts => "The atlas coordinate charts are invalid."@,
            ErrorKind::CouldNotOpenTextureAtlas => "The texture atlas file could not be opened or parsed."@,
            ErrorKind::Got32BitFloatingPointImageInsteadOfByteImage => {
                "Tried to load an image as byte vectors, got 32 bit floating point image instead."@
            },
            ErrorKind::MissingImageBuffer => "Texture atlas is missing image buffer."@,
            ErrorKind::MissingCoordinateCharts => "Texture atlas is missing coordinate data."@,
            ErrorKind::CouldNotEncodeAtlasImageBuffer => "Could not encode image buffer."@,
            ErrorKind::CouldNotWriteTextureAtlas => "The texture atlas file could not be written."@,
        }
    }

    /// A sentence that describes the error.
    pub fn description(&self) -> (r: &'static str)
        ensures
            r@ == self.spec_description(),
    {
        match self {
            ErrorKind::UnrecognizedColorType => "The image buffer has an unrecognized color format.",
            ErrorKind::CouldNotLoadAtlasImageBuffer => "Could not load image buffer.",
            ErrorKind::CouldNotLoadCoordinateCharts => "The atlas coordinate charts are invalid.",
            ErrorKind::CouldNotOpenTextureAtlas => "The texture atlas file could not be opened or parsed.",
            ErrorKind::Got32BitFloatingPointImageInsteadOfByteImage => {
                "Tried to load an image as byte vectors, got 32 bit floating point image instead."
            },
            ErrorKind::MissingImageBuffer => "Texture atlas is missing image buffer.",
            ErrorKind::MissingCoordinateCharts => "Texture atlas is missing coordinate data.",
            ErrorKind::CouldNotEncodeAtlasImageBuffer => "Could not encode image buffer.",
            ErrorKind::CouldNotWriteTextureAtlas => "The texture atlas file could not be written.",
        }
    }
}

/// An error that represents the possible failures during the reading,
/// writing, parsing, and encoding of a texture atlas: its kind, the name of
/// the atlas page it concerns (empty where it concerns none), and the
/// description of the lower-level failure that caused it, if any.
#[derive(Clone, Debug)]
pub struct TextureAtlas2DError {
    pub kind: ErrorKind,
    pub name: String,
    pub cause: Option<String>,
}

impl TextureAtlas2DError {
    pub fn new(kind: ErrorKind, name: String, cause: Option<String>) -> (r: TextureAtlas2DError)
        ensures
            r.kind == kind,
            r.name@ == name@,
            r.cause == cause,
    {
        TextureAtlas2DError { kind: kind, name: name, cause: cause }
    }

    pub fn kind(&self) -> (r: ErrorKind)
        ensures
            r == self.kind,
    {
        self.kind
    }

    pub fn atlas_name(&self) -> (r: &str)
        ensures
            r@ == self.name@,
    {
        self.name.as_str()
    }
}

} // verus!
