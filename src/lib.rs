//! Texture atlases: packed images with a named index of sub-images, their
//! coordinate queries, and the container format that stores them.
//!
//! A container is a zip archive that holds, for each page of an atlas, a
//! metadata entry `<page>.json` and a PNG image entry `<page>.png`.

pub mod archive;
pub mod atlas;
pub mod codec;
pub mod color;
pub mod coords;
pub mod discovery;
pub mod error;
pub mod multi;
pub mod pixels;
pub mod png_codec;

pub use atlas::{
    is_texture_table, AtlasEntry, TextureAtlas2D, TextureAtlas2DSerialization, TextureAtlas2DSerializationEntry,
    TextureEntry,
};
pub use codec::{
    archive_entries, decode_page, decode_pages, dimension_warning, encode_multi_atlas, is_power_of_two,
    page_from_image, read_pages, write_archive, PageEntries,
};
pub use color::ColorType;
pub use coords::{
    corners_of, corners_of_uv, pixel_to_tex, BoundingBoxCornersPixelCoords, BoundingBoxCornersTexCoords,
    BoundingBoxPixelCoords, BoundingBoxTexCoords, OffsetPixelCoords, OffsetTexCoords, Origin, TexCoord,
    TextureAtlas2DWarning,
};
pub use discovery::{discover_pages, extract_atlas_names, sort_names};
pub use error::{ErrorKind, TextureAtlas2DError};
pub use multi::{MultiTextureAtlas2D, MultiTextureAtlas2DResult, TextureAtlas2DResult};
pub use pixels::{flip_rows, orient_image, TextureImage2D};
