use tex_atlas::{
    decode_pages, encode_multi_atlas, read_pages, BoundingBoxPixelCoords, ColorType, MultiTextureAtlas2D,
    OffsetPixelCoords, Origin, TextureAtlas2D, TextureAtlas2DSerialization,
};

fn to_byte_vec(vec: Vec<u32>) -> Vec<u8> {
    let mut acc = vec![];
    for item in vec.iter() {
        acc.push(((item & 0xFF000000) >> 24) as u8);
        acc.push(((item & 0x00FF0000) >> 16) as u8);
        acc.push(((item & 0x0000FF00) >> 8) as u8);
        acc.push((item & 0x000000FF) as u8);
    }
    acc
}

fn sample_pixels() -> Vec<u32> {
    let mut pixels = vec![];
    for row in 0..16 {
        for col in 0..16 {
            let pixel = match (row < 8, col < 8) {
                (true, true) => 0x0000FFFF,
                (true, false) => 0x000000FF,
                (false, true) => 0xFF0000FF,
                (false, false) => 0x00FF00FF,
            };
            pixels.push(pixel);
        }
    }
    pixels
}

/// The atlas data expected from the sample image.
/// 0xFF0000FF = { R: 255, G:   0, B:   0, A: 255 }
/// 0x00FF00FF = { R:   0, G: 255, B:   0, A: 255 }
/// 0x0000FFFF = { R:   0, G:   0, B: 255, A: 255 }
/// 0x000000FF = { R:   0, G:   0, B    0, A: 255 }
fn multi_atlas() -> MultiTextureAtlas2D {
    let width = 16;
    let height = 16;
    let texture_width = 8;
    let texture_height = 8;
    let color_type = ColorType::Rgba8;
    let origin = Origin::BottomLeft;
    let data: Vec<u8> = to_byte_vec(sample_pixels());
    let names = vec![format!("red"), format!("green"), format!("blue"), format!("black")];
    let bounding_boxes = vec![
        BoundingBoxPixelCoords { top_left: OffsetPixelCoords { u: 0, v: 15 }, width: texture_width, height: texture_height },
        BoundingBoxPixelCoords { top_left: OffsetPixelCoords { u: 8, v: 15 }, width: texture_width, height: texture_height },
        BoundingBoxPixelCoords { top_left: OffsetPixelCoords { u: 0, v: 7 }, width: texture_width, height: texture_height },
        BoundingBoxPixelCoords { top_left: OffsetPixelCoords { u: 8, v: 7 }, width: texture_width, height: texture_height },
    ];
    let indices = vec![0, 1, 2, 3];
    let atlas_entries = vec![
        (indices[0], names[0].clone(), bounding_boxes[0]),
        (indices[1], names[1].clone(), bounding_boxes[1]),
        (indices[2], names[2].clone(), bounding_boxes[2]),
        (indices[3], names[3].clone(), bounding_boxes[3]),
    ];
    let atlas_name = String::from("atlas");
    let atlas = TextureAtlas2D::new(width, height, color_type, origin, atlas_entries, atlas_name.clone(), data);
    let pages = vec![atlas];
    let page_names = vec![atlas_name];

    MultiTextureAtlas2D::new(pages, page_names)
}

/// The sample atlas as a container holds it, read back: the metadata record
/// of each page passes through its metadata entry unchanged.
fn load_sample() -> Result<MultiTextureAtlas2D, tex_atlas::TextureAtlas2DError> {
    let expected = multi_atlas();
    let charts: Vec<TextureAtlas2DSerialization> =
        expected.pages().iter().map(|page| page.coordinate_charts()).collect();
    let charts_json: Vec<Vec<u8>> = expected.pages().iter().map(|page| page.atlas_name().as_bytes().to_vec()).collect();
    let container = encode_multi_atlas(&expected, &charts_json)?;
    let pages = read_pages(&container)?;
    let mut records = vec![];
    for page in pages.iter() {
        let index = expected.pages().iter().position(|p| p.atlas_name() == page.page_name).unwrap();
        assert_eq!(page.coordinate_charts, charts_json[index]);
        records.push(charts[index].clone());
    }
    Ok(decode_pages(&pages, &records)?.multi_atlas)
}

/// The sample atlas can be read.
#[test]
fn sample_file_exists() {
    let multi_atlas = load_sample();
    assert!(multi_atlas.is_ok());
}

/// The loader yields the correct number of atlases.
#[test]
fn load_files_parses_the_correct_number_of_atlases() {
    let result = load_sample().unwrap();
    let expected = multi_atlas();

    assert_eq!(result.page_count(), expected.page_count());
}

/// The loader parses all atlas names correctly.
#[test]
fn load_files_parses_all_atlases_by_name() {
    let result = load_sample().unwrap();
    for page_name in result.page_names() {
        let result_page = result.by_page_name(&page_name);
        let expected_page = result.by_page_name(&page_name);
        assert!(result_page.is_some());
        assert!(expected_page.is_some());
    }
}

/// The loader yields the correct width of each texture atlas.
#[test]
fn load_file_yields_correct_width() {
    let result = load_sample().unwrap();
    let expected = multi_atlas();
    for page_name in result.page_names() {
        let result_page = result.by_page_name(&page_name).unwrap();
        let expected_page = expected.by_page_name(&page_name).unwrap();

        assert_eq!(result_page.width, expected_page.width);
    }
}

/// The loader yields the correct height.
#[test]
fn load_file_yields_correct_height() {
    let result = load_sample().unwrap();
    let expected = multi_atlas();
    for page_name in result.page_names() {
        let result_page = result.by_page_name(&page_name).unwrap();
        let expected_page = expected.by_page_name(&page_name).unwrap();

        assert_eq!(result_page.height, expected_page.height);
    }
}

/// The loader yields the correct number of color channels.
#[test]
fn load_file_yields_correct_pixel_channel_count() {
    let result = load_sample().unwrap();
    let expected = multi_atlas();
    for page_name in result.page_names() {
        let result_page = result.by_page_name(&page_name).unwrap();
        let expected_page = expected.by_page_name(&page_name).unwrap();

        assert_eq!(result_page.channel_count, expected_page.channel_count);
    }
}

/// The number of pixels in the loaded image matches the number of pixels in the expected image.
#[test]
fn load_file_yields_correct_pixel_count() {
    let result = load_sample().unwrap();
    let expected = multi_atlas();
    for page_name in expected.page_names() {
        let result_page = result.by_page_name(&page_name).unwrap();
        let expected_page = expected.by_page_name(&page_name).unwrap();

        assert_eq!(result_page.len_pixels(), expected_page.len_pixels());
    }
}

/// `number of pixels == width * height.`
#[test]
fn height_times_width_equals_pixel_count() {
    let multi_atlas = load_sample().unwrap();
    for page in multi_atlas.pages() {
        let height = page.height as usize;
        let width = page.width as usize;
        let pixel_count = page.len_pixels();

        assert_eq!(width * height, pixel_count);
    }
}

/// `number of bytes == width * height * bytes per pixel.`
#[test]
fn height_times_width_equals_length_in_bytes() {
    let multi_atlas = load_sample().unwrap();
    for page in multi_atlas.pages() {
        let height = page.height;
        let width = page.width;
        let bytes_per_pixel = page.bytes_per_pixel;

        assert_eq!(width * height * bytes_per_pixel, page.len_bytes());
    }
}

/// The loader yields the correct data block.
#[test]
fn load_file_yields_correct_data_block() {
    let result = load_sample().unwrap();
    let expected = multi_atlas();
    for page_name in result.page_names() {
        let result_page = result.by_page_name(&page_name).unwrap();
        let expected_page = expected.by_page_name(&page_name).unwrap();
        let result_bytes = result_page.as_bytes();
        let expected_bytes = expected_page.as_bytes();

        assert_eq!(result_bytes, expected_bytes);
    }
}

/// Every texture name in every atlas exists in the multi texture atlas.
#[test]
fn each_texture_in_the_multi_atlas_exists() {
    let multi_atlas = load_sample().unwrap();
    for page in multi_atlas.pages() {
        for texture_name in page.texture_names() {
            assert!(page.by_texture_name(&texture_name).is_some(), "{} : {}", page.atlas_name(), texture_name);
        }
    }
}

/// Textures that are not present in the atlas are not found by the query methods.
#[test]
fn each_texture_absent_from_the_atlas_does_not_exist() {
    let multi_atlas = load_sample().unwrap();
    let texture_name = "DOES NOT EXIST";
    for page in multi_atlas.pages() {
        assert!(page.by_texture_name(texture_name).is_none());
    }
}

/// Every texture has a corresponding bounding box.
#[test]
fn every_texture_corresponding_bounding_box() {
    let multi_atlas = load_sample().unwrap();
    for page in multi_atlas.pages() {
        for i in 0..page.texture_count() {
            assert!(page.by_index(i).is_some());
        }
    }
}

/// Every bounding box in units of pixels has a corresponding bounding box in
/// the unit square in texture coordinates.
#[test]
fn every_pixel_bounding_box_has_a_corresponding_uv_bounding_box() {
    let multi_atlas = load_sample().unwrap();
    for page in multi_atlas.pages() {
        for i in 0..page.texture_count() {
            assert!(page.by_index_uv(i).is_some());
        }
    }
}

/// The decoder parses the names and pixel bounding boxes of the textures.
#[test]
fn resulting_texture_atlas_entries_match_expected_atlas_entries_by_name() {
    let result_multi_atlas = load_sample().unwrap();
    let expected_multi_atlas = multi_atlas();
    for page in expected_multi_atlas.pages() {
        let page_name = page.atlas_name();
        let result_page = result_multi_atlas.by_page_name(page_name).unwrap();
        for texture_name in page.texture_names() {
            let expected = page.by_texture_name(&texture_name);
            let result = result_page.by_texture_name(&texture_name);
            assert_eq!(result, expected);
        }
    }
}

/// The decoder parses the indices and pixel bounding boxes of the textures.
#[test]
fn resulting_texture_atlas_entries_match_expected_atlas_entries_by_index() {
    let result_multi_atlas = load_sample().unwrap();
    let expected_multi_atlas = multi_atlas();
    for page_name in expected_multi_atlas.page_names() {
        let expected_page = expected_multi_atlas.by_page_name(&page_name).unwrap();
        let result_page = result_multi_atlas.by_page_name(&page_name).unwrap();
        for i in 0..result_page.texture_count() {
            let expected = expected_page.by_index(i);
            let result = result_page.by_index(i);
            assert_eq!(result, expected);
        }
    }
}

/// The decoder parses the names and texture coordinate bounding boxes.
#[test]
fn resulting_texture_atlas_entries_match_expected_atlas_entries_by_name_tex() {
    let result_multi_atlas = load_sample().unwrap();
    let expected_multi_atlas = multi_atlas();
    for page_name in expected_multi_atlas.page_names() {
        let expected_page = expected_multi_atlas.by_page_name(&page_name).unwrap();
        let result_page = result_multi_atlas.by_page_name(&page_name).unwrap();
        for texture_name in expected_page.texture_names() {
            let expected = expected_page.by_texture_name_uv(&texture_name);
            let result = result_page.by_texture_name_uv(&texture_name);
            assert_eq!(result, expected);
        }
    }
}

/// The decoder parses the indices and texture coordinate bounding boxes.
#[test]
fn resulting_texture_atlas_entries_match_expected_atlas_entries_by_index_tex() {
    let result_multi_atlas = load_sample().unwrap();
    let expected_multi_atlas = multi_atlas();
    for page_name in expected_multi_atlas.page_names() {
        let expected_page = expected_multi_atlas.by_page_name(&page_name).unwrap();
        let result_page = result_multi_atlas.by_page_name(&page_name).unwrap();
        for i in 0..expected_page.texture_count() {
            let expected = expected_page.by_index_uv(i);
            let result = result_page.by_index_uv(i);
            assert_eq!(result, expected);
        }
    }
}
