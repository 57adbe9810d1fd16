use tex_atlas::{
    decode_pages, encode_multi_atlas, read_pages, BoundingBoxPixelCoords, ColorType, MultiTextureAtlas2D,
    OffsetPixelCoords, Origin, TextureAtlas2D, TextureAtlas2DSerialization,
};

fn to_byte_vec(vec: Vec<u32>) -> Vec<u8> {
    let mut acc = vec![];
    for item in vec.iter() {
        acc.push(((item & 0xFF000000) >> 24) as u8);
        acc.push(((item & 0x00FF0000) >> 16) as u8);
        acc.push(((item & 0x0000FF00) >> 8) as u8);
        acc.push((item & 0x000000FF) as u8);
    }
    acc
}

fn sample_pixels() -> Vec<u32> {
    let mut pixels = vec![];
    for row in 0..16 {
        for col in 0..16 {
            let pixel = match (row < 8, col < 8) {
                (true, true) => 0x0000FFFF,
                (true, false) => 0x000000FF,
                (false, true) => 0xFF0000FF,
                (false, false) => 0x00FF00FF,
            };
            pixels.push(pixel);
        }
    }
    pixels
}

/// The atlas data expected from the sample image.
/// 0xFF0000FF = { R: 255, G:   0, B:   0, A: 255 }
/// 0x00FF00FF = { R:   0, G: 255, B:   0, A: 255 }
/// 0x0000FFFF = { R:   0, G:   0, B: 255, A: 255 }
/// 0x000000FF = { R:   0, G:   0, B    0, A: 255 }
fn multi_atlas() -> MultiTextureAtlas2D {
    let width = 16;
    let height = 16;
    let texture_width = 8;
    let texture_height = 8;
    let color_type = ColorType::Rgba8;
    let origin = Origin::BottomLeft;
    let data: Vec<u8> = to_byte_vec(sample_pixels());
    let names = vec![format!("red"), format!("green"), format!("blue"), format!("black")];
    let bounding_boxes = vec![
        BoundingBoxPixelCoords { top_left: OffsetPixelCoords { u: 0, v: 15 }, width: texture_width, height: texture_height },
        BoundingBoxPixelCoords { top_left: OffsetPixelCoords { u: 8, v: 15 }, width: texture_width, height: texture_height },
        BoundingBoxPixelCoords { top_left: OffsetPixelCoords { u: 0, v: 7 }, width: texture_width, height: texture_height },
        BoundingBoxPixelCoords { top_left: OffsetPixelCoords { u: 8, v: 7 }, width: texture_width, height: texture_height },
    ];
    let indices = vec![0, 1, 2, 3];
    let atlas_entries = vec![
        (indices[0], names[0].clone(), bounding_boxes[0]),
        (indices[1], names[1].clone(), bounding_boxes[1]),
        (indices[2], names[2].clone(), bounding_boxes[2]),
        (indices[3], names[3].clone(), bounding_boxes[3]),
    ];
    let atlas_name = String::from("atlas");
    let atlas = TextureAtlas2D::new(width, height, color_type, origin, atlas_entries, atlas_name.clone(), data);
    let pages = vec![atlas];
    let page_names = vec![atlas_name];

    MultiTextureAtlas2D::new(pages, page_names)
}

/// Write a multi texture atlas into a container and read it back. The
/// metadata record of each page passes through its metadata entry unchanged.
fn write_then_read(multi_atlas: &MultiTextureAtlas2D) -> MultiTextureAtlas2D {
    let charts: Vec<TextureAtlas2DSerialization> =
        multi_atlas.pages().iter().map(|page| page.coordinate_charts()).collect();
    let charts_json: Vec<Vec<u8>> =
        multi_atlas.pages().iter().map(|page| page.atlas_name().as_bytes().to_vec()).collect();
    let container = encode_multi_atlas(multi_atlas, &charts_json).unwrap();
    let pages = read_pages(&container).unwrap();
    let mut records = vec![];
    for page in pages.iter() {
        let index = multi_atlas.pages().iter().position(|p| p.atlas_name() == page.page_name).unwrap();
        records.push(charts[index].clone());
    }
    decode_pages(&pages, &records).unwrap().multi_atlas
}

struct ReadWriteTest {
    expected_multi_atlas: MultiTextureAtlas2D,
    result_multi_atlas: MultiTextureAtlas2D,
}

fn read_write_test() -> ReadWriteTest {
    let expected_multi_atlas = write_then_read(&multi_atlas());
    let result_multi_atlas = write_then_read(&expected_multi_atlas);

    ReadWriteTest { expected_multi_atlas, result_multi_atlas }
}

/// Reading and writing satisfy `read(write(read(file))) == read(file)`.
/// The height in pixels of the atlas images should match.
#[test]
fn atlas_file_written_and_then_read_should_match_heights() {
    let test = read_write_test();
    for page_name in test.expected_multi_atlas.page_names() {
        let result_atlas = test.result_multi_atlas.by_page_name(&page_name).unwrap();
        let expected_atlas = test.expected_multi_atlas.by_page_name(&page_name).unwrap();

        assert_eq!(result_atlas.height, expected_atlas.height);
    }
}

/// The width in pixels of the atlas images should match.
#[test]
fn atlas_file_written_and_then_read_should_match_widths() {
    let test = read_write_test();
    for page_name in test.expected_multi_atlas.page_names() {
        let result_atlas = test.result_multi_atlas.by_page_name(&page_name).unwrap();
        let expected_atlas = test.expected_multi_atlas.by_page_name(&page_name).unwrap();

        assert_eq!(result_atlas.width, expected_atlas.width);
    }
}

/// The origins of the atlases should match.
#[test]
fn atlas_file_written_and_then_read_should_match_origins() {
    let test = read_write_test();
    for page_name in test.expected_multi_atlas.page_names() {
        let result_atlas = test.result_multi_atlas.by_page_name(&page_name).unwrap();
        let expected_atlas = test.expected_multi_atlas.by_page_name(&page_name).unwrap();

        assert_eq!(result_atlas.origin(), expected_atlas.origin());
    }
}

/// The color space types of the atlases should match.
#[test]
fn atlas_file_written_and_then_read_should_match_color_types() {
    let test = read_write_test();
    for page_name in test.expected_multi_atlas.page_names() {
        let result_atlas = test.result_multi_atlas.by_page_name(&page_name).unwrap();
        let expected_atlas = test.expected_multi_atlas.by_page_name(&page_name).unwrap();

        assert_eq!(result_atlas.color_type, expected_atlas.color_type);
    }
}

/// The color channel counts of the atlases should match.
#[test]
fn atlas_file_written_and_then_read_should_match_channel_counts() {
    let test = read_write_test();
    for page_name in test.expected_multi_atlas.page_names() {
        let result_atlas = test.result_multi_atlas.by_page_name(&page_name).unwrap();
        let expected_atlas = test.expected_multi_atlas.by_page_name(&page_name).unwrap();

        assert_eq!(result_atlas.channel_count, expected_atlas.channel_count);
    }
}

/// The number of bytes per pixel of the atlases should match.
#[test]
fn atlas_file_written_and_then_read_should_match_bytes_per_channel() {
    let test = read_write_test();
    for page_name in test.expected_multi_atlas.page_names() {
        let result_atlas = test.result_multi_atlas.by_page_name(&page_name).unwrap();
        let expected_atlas = test.expected_multi_atlas.by_page_name(&page_name).unwrap();

        assert_eq!(result_atlas.bytes_per_pixel, expected_atlas.bytes_per_pixel);
    }
}

/// The number of textures in the atlases should match.
#[test]
fn atlas_file_written_and_then_read_should_match_texture_counts() {
    let test = read_write_test();
    for page_name in test.expected_multi_atlas.page_names() {
        let result_atlas = test.result_multi_atlas.by_page_name(&page_name).unwrap();
        let expected_atlas = test.expected_multi_atlas.by_page_name(&page_name).unwrap();

        assert_eq!(result_atlas.texture_count(), expected_atlas.texture_count());
    }
}

/// The texture names and the associated textures should be preserved.
#[test]
fn atlas_file_written_and_then_read_should_preserve_texture_names() {
    let test = read_write_test();
    for page_name in test.expected_multi_atlas.page_names() {
        let result_atlas = test.result_multi_atlas.by_page_name(&page_name).unwrap();
        let expected_atlas = test.expected_multi_atlas.by_page_name(&page_name).unwrap();
        for texture_name in expected_atlas.texture_names() {
            let result = result_atlas.by_texture_name(&texture_name);
            let expected = expected_atlas.by_texture_name(&texture_name);
            assert_eq!(result, expected);
        }
    }
}

/// The texture indices and the associated textures should be preserved.
#[test]
fn atlas_file_written_and_then_read_should_preserve_texture_indices() {
    let test = read_write_test();
    for page_name in test.expected_multi_atlas.page_names() {
        let result_atlas = test.result_multi_atlas.by_page_name(&page_name).unwrap();
        let expected_atlas = test.expected_multi_atlas.by_page_name(&page_name).unwrap();
        for index in result_atlas.indices().iter() {
            let result = result_atlas.by_index(*index);
            let expected = expected_atlas.by_index(*index);
            assert_eq!(result, expected);
        }
    }
}

/// A texture index and a texture name that match the same texture still do
/// so when the data is written out and read back.
#[test]
fn atlas_file_written_and_then_read_should_preserve_textures() {
    let test = read_write_test();
    for page_name in test.expected_multi_atlas.page_names() {
        let result_atlas = test.result_multi_atlas.by_page_name(&page_name).unwrap();
        let expected_atlas = test.expected_multi_atlas.by_page_name(&page_name).unwrap();
        let indices = result_atlas.indices();
        let names = result_atlas.texture_names();
        let result_zip = indices.iter().zip(names.iter());
        for (index, name) in result_zip.filter(|(index, name)| {
            result_atlas.by_index(**index) == result_atlas.by_texture_name(name)
        }) {
            let expected_index = expected_atlas.by_index(*index);
            let expected_name = expected_atlas.by_texture_name(name);
            assert_eq!(expected_index, expected_name);
        }
    }
}

/// Reading back the atlas that was written preserves the underlying image data.
#[test]
fn atlas_file_written_and_then_read_should_preserve_underlying_image_data() {
    let test = read_write_test();
    for page_name in test.expected_multi_atlas.page_names() {
        let result_atlas = test.result_multi_atlas.by_page_name(&page_name).unwrap();
        let expected_atlas = test.expected_multi_atlas.by_page_name(&page_name).unwrap();

        assert_eq!(result_atlas.as_bytes(), expected_atlas.as_bytes());
    }
}

/// Reading back the atlas that was written preserves the length of the image data.
#[test]
fn atlas_file_written_and_then_read_should_preserve_underlying_image_data_length() {
    let test = read_write_test();
    for page_name in test.expected_multi_atlas.page_names() {
        let result_atlas = test.result_multi_atlas.by_page_name(&page_name).unwrap();
        let expected_atlas = test.expected_multi_atlas.by_page_name(&page_name).unwrap();

        assert_eq!(result_atlas.len_bytes(), expected_atlas.len_bytes());
    }
}

/// The texture names and the associated texture coordinates should be preserved.
#[test]
fn atlas_file_written_and_then_read_should_preserve_texture_names_uv() {
    let test = read_write_test();
    for page_name in test.expected_multi_atlas.page_names() {
        let result_atlas = test.result_multi_atlas.by_page_name(&page_name).unwrap();
        let expected_atlas = test.expected_multi_atlas.by_page_name(&page_name).unwrap();
        for texture_name in result_atlas.texture_names() {
            let result = result_atlas.by_texture_name_uv(&texture_name);
            let expected = expected_atlas.by_texture_name_uv(&texture_name);
            assert_eq!(result, expected);
        }
    }
}

/// The texture indices and the associated texture coordinates should be preserved.
#[test]
fn atlas_file_written_and_then_read_should_preserve_texture_indices_uv() {
    let test = read_write_test();
    for page_name in test.expected_multi_atlas.page_names() {
        let result_atlas = test.result_multi_atlas.by_page_name(&page_name).unwrap();
        let expected_atlas = test.expected_multi_atlas.by_page_name(&page_name).unwrap();
        for index in result_atlas.indices().iter() {
            let result = result_atlas.by_index_uv(*index);
            let expected = expected_atlas.by_index_uv(*index);
            assert_eq!(result, expected);
        }
    }
}

/// A texture index and a texture name that match the same texture coordinates
/// still do so when the data is written out and read back.
#[test]
fn atlas_file_written_and_then_read_should_preserve_textures_uv() {
    let test = read_write_test();
    for page_name in test.expected_multi_atlas.page_names() {
        let result_atlas = test.result_multi_atlas.by_page_name(&page_name).unwrap();
        let expected_atlas = test.expected_multi_atlas.by_page_name(&page_name).unwrap();
        let indices = result_atlas.indices();
        let names = result_atlas.texture_names();
        let result_zip = indices.iter().zip(names.iter());
        for (index, name) in result_zip.filter(|(index, name)| {
            result_atlas.by_index_uv(**index) == result_atlas.by_texture_name_uv(name)
        }) {
            let expected_index = expected_atlas.by_index_uv(*index);
            let expected_name = expected_atlas.by_texture_name_uv(name);
            assert_eq!(expected_index, expected_name);
        }
    }
}
