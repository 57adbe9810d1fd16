use vstd::prelude::*;
use crate::archive::{
    archive_entry, archive_entry_names, finish_archive, new_archive_writer, start_entry, write_entry_data,
    zip_archive_of, zip_entry_data, zip_entry_names, zip_entry_reads, zip_opens, zip_writer_open, zip_written,
};
use crate::discovery::{
    discover_pages, spec_has_unpaired, spec_is_first_unpaired, spec_json_ext, spec_lists_name, spec_lists_pages,
    spec_name_set,
    spec_png_ext, with_extension,
};
use crate::atlas::{
    is_texture_table, spec_chart_entries, spec_is_texture_table, TextureAtlas2D, TextureAtlas2DSerialization,
};
use crate::color::ColorType;
use crate::coords::TextureAtlas2DWarning;
use crate::error::{ErrorKind, TextureAtlas2DError};
use crate::multi::{MultiTextureAtlas2D, MultiTextureAtlas2DResult, TextureAtlas2DResult};
use crate::pixels::{lemma_orient_involution, orient_image, spec_orient};
use crate::png_codec::{decode_png, encode_png, png_decoded, png_decodes, png_encoded};

verus! {

/// The raw entries of one atlas page as its container holds them.
#[derive(Clone, Debug)]
pub struct PageEntries {
    /// The name of the page.
    pub page_name: String,
    /// The contents of the metadata entry `<page>.json`.
    pub coordinate_charts: Vec<u8>,
    /// The contents of the image entry `<page>.png`.
    pub image: Vec<u8>,
}

/// The names of the pages.
pub open spec fn spec_page_names(pages: Seq<PageEntries>) -> Seq<String> {
    pages.map_values(|p: PageEntries| p.page_name)
}

/// Every page of the entries has both its metadata entry and its image entry.
pub open spec fn spec_all_paired(entries: Set<Seq<char>>) -> bool {
    &&& !spec_has_unpaired(entries, spec_png_ext(), spec_json_ext())
    &&& !spec_has_unpaired(entries, spec_json_ext(), spec_png_ext())
}

/// The metadata entry and the image entry of every page of the archive
/// held in `archive` read to their ends.
pub open spec fn spec_pages_read(archive: Seq<u8>) -> bool {
    forall|b: Seq<char>|
        #[trigger] zip_entry_names(archive).contains(b + spec_json_ext()) && zip_entry_names(
            archive,
        ).contains(b + spec_png_ext()) ==> zip_entry_reads(archive, b + spec_json_ext())
            && zip_entry_reads(archive, b + spec_png_ext())
}

/// Read the entries of every page out of an atlas container held in memory.
/// The container is a zip archive; its pages are found as `discover_pages`
/// finds them, and the metadata and image entries of each page are read in
/// the order of the pages. Succeeds exactly when the bytes open as an
/// archive, every page has both its entries, and all of them read. Fails
/// with `CouldNotOpenTextureAtlas` where the bytes are not an archive, with
/// the error of `discover_pages` where an entry is missing, and with
/// `CouldNotLoadCoordinateCharts` or `CouldNotLoadAtlasImageBuffer` for the
/// first page whose metadata or image entry does not read.
pub fn read_pages(archive: &[u8]) -> (r: Result<Vec<PageEntries>, TextureAtlas2DError>)
    ensures
        ({
            let entries = zip_entry_names(archive@);
            &&& r is Ok <==> zip_opens(archive@) && spec_all_paired(entries) && spec_pages_read(archive@)
            &&& r matches Ok(pages) ==> {
                &&& spec_lists_pages(spec_page_names(pages@), entries)
                &&& forall|i: int|
                    0 <= i < pages.len() ==> (#[trigger] pages@[i]).coordinate_charts@ == zip_entry_data(
                        archive@,
                        pages@[i].page_name@ + spec_json_ext(),
                    ) && pages@[i].image@ == zip_entry_data(archive@, pages@[i].page_name@ + spec_png_ext())
            }
            &&& r matches Err(e) ==> match e.kind {
                ErrorKind::CouldNotOpenTextureAtlas => !zip_opens(archive@),
                ErrorKind::MissingCoordinateCharts => zip_opens(archive@) && spec_is_first_unpaired(
                    e.name@,
                    entries,
                    spec_png_ext(),
                    spec_json_ext(),
                ),
                ErrorKind::MissingImageBuffer => zip_opens(archive@) && !spec_has_unpaired(
                    entries,
                    spec_png_ext(),
                    spec_json_ext(),
                ) && spec_is_first_unpaired(e.name@, entries, spec_json_ext(), spec_png_ext()),
                ErrorKind::CouldNotLoadCoordinateCharts => zip_opens(archive@) && spec_all_paired(entries)
                    && entries.contains(e.name@ + spec_json_ext()) && entries.contains(e.name@ + spec_png_ext())
                    && !zip_entry_reads(archive@, e.name@ + spec_json_ext()),
                ErrorKind::CouldNotLoadAtlasImageBuffer => zip_opens(archive@) && spec_all_paired(entries)
                    && entries.contains(e.name@ + spec_json_ext()) && entries.contains(e.name@ + spec_png_ext())
                    && !zip_entry_reads(archive@, e.name@ + spec_png_ext()),
                _ => false,
            }
        }),
{
    let file_names = match archive_entry_names(archive) {
        Ok(file_names) => file_names,
        Err(e) => {
            let cause = Some(e.to_string());
            return Err(TextureAtlas2DError::new(ErrorKind::CouldNotOpenTextureAtlas, String::new(), cause));
        },
    };
    proof {
        assert(spec_name_set(file_names@) =~= zip_entry_names(archive@));
    }
    let page_names = match discover_pages(&file_names) {
        Ok(page_names) => page_names,
        Err(e) => {
            return Err(e);
        },
    };
    assert(spec_all_paired(zip_entry_names(archive@)));
    proof {
        reveal_strlit(".json");
        reveal_strlit(".png");
        assert(".json"@ =~= spec_json_ext());
        assert(".png"@ =~= spec_png_ext());
    }
    let mut pages: Vec<PageEntries> = Vec::new();
    let mut i: usize = 0;
    while i < page_names.len()
        invariant
            ".json"@ == spec_json_ext(),
            ".png"@ == spec_png_ext(),
            zip_opens(archive@),
            spec_all_paired(zip_entry_names(archive@)),
            forall|j: int|
                0 <= j < i ==> zip_entry_reads(archive@, (#[trigger] page_names@[j])@ + spec_json_ext())
                    && zip_entry_reads(archive@, page_names@[j]@ + spec_png_ext()),
            spec_lists_pages(page_names@, zip_entry_names(archive@)),
            i <= page_names.len(),
            pages.len() == i,
            forall|j: int| 0 <= j < i ==> (#[trigger] pages@[j]).page_name == page_names@[j],
            forall|j: int|
                0 <= j < i ==> (#[trigger] pages@[j]).coordinate_charts@ == zip_entry_data(
                    archive@,
                    pages@[j].page_name@ + spec_json_ext(),
                ) && pages@[j].image@ == zip_entry_data(archive@, pages@[j].page_name@ + spec_png_ext()),
        decreases page_names.len() - i,
    {
        let name = &page_names[i];
        assert(zip_entry_names(archive@).contains(name@ + spec_json_ext()));
        assert(zip_entry_names(archive@).contains(name@ + spec_png_ext()));
        let charts_name = with_extension(name, ".json");
        let coordinate_charts = match archive_entry(archive, charts_name.as_str()) {
            Ok(data) => data,
            Err(e) => {
                let cause = Some(e.to_string());
                return Err(
                    TextureAtlas2DError::new(ErrorKind::CouldNotLoadCoordinateCharts, name.clone(), cause),
                );
            },
        };
        let image_name = with_extension(name, ".png");
        let image = match archive_entry(archive, image_name.as_str()) {
            Ok(data) => data,
            Err(e) => {
                let cause = Some(e.to_string());
                return Err(
                    TextureAtlas2DError::new(ErrorKind::CouldNotLoadAtlasImageBuffer, name.clone(), cause),
                );
            },
        };
        pages.push(PageEntries { page_name: name.clone(), coordinate_charts, image });
        i += 1;
    }
    proof {
        assert(spec_page_names(pages@) =~= page_names@);
        let entries = zip_entry_names(archive@);
        assert forall|b: Seq<char>|
            #[trigger] entries.contains(b + spec_json_ext()) && entries.contains(b + spec_png_ext())
                implies zip_entry_reads(archive@, b + spec_json_ext()) && zip_entry_reads(
                archive@,
                b + spec_png_ext(),
            ) by {
            assert(spec_lists_name(page_names@, b));
            let k = choose|k: int| 0 <= k < page_names@.len() && (#[trigger] page_names@[k])@ == b;
        }
    }
    Ok(pages)
}

/// `x` is a power of two.
pub open spec fn spec_is_power_of_two(x: nat) -> bool
    decreases x,
{
    if x == 0 {
        false
    } else if x == 1 {
        true
    } else {
        x % 2 == 0 && spec_is_power_of_two(x / 2)
    }
}

/// The warning for an atlas image of the given dimensions.
pub open spec fn spec_dimension_warning(width: nat, height: nat) -> TextureAtlas2DWarning {
    if spec_is_power_of_two(width) && spec_is_power_of_two(height) {
        TextureAtlas2DWarning::NoWarnings
    } else {
        TextureAtlas2DWarning::TextureDimensionsAreNotAPowerOfTwo
    }
}

/// Decide whether `x` is a power of two.
pub fn is_power_of_two(x: u32) -> (r: bool)
    ensures
        r == spec_is_power_of_two(x as nat),
{
    if x == 0 {
        return false;
    }
    let mut y: u32 = x;
    while y > 1 && y % 2 == 0
        invariant
            y > 0,
            spec_is_power_of_two(x as nat) == spec_is_power_of_two(y as nat),
        decreases y,
    {
        y = y / 2;
    }
    y == 1
}

/// The warning for an atlas image of the given dimensions: none where both
/// are powers of two.
pub fn dimension_warning(width: u32, height: u32) -> (r: TextureAtlas2DWarning)
    ensures
        r == spec_dimension_warning(width as nat, height as nat),
{
    if is_power_of_two(width) && is_power_of_two(height) {
        TextureAtlas2DWarning::NoWarnings
    } else {
        TextureAtlas2DWarning::TextureDimensionsAreNotAPowerOfTwo
    }
}

/// `atlas`, with `warning`, is the page called `page_name` that decoding
/// builds from its metadata record `charts` and the 8-bit RGBA samples of a
/// `width` x `height` image, row after row from the top: the samples are
/// oriented for the origin of the record, and texture `i` is the texture
/// that the record gives index `i`.
pub open spec fn spec_decoded_page(
    atlas: TextureAtlas2D,
    warning: TextureAtlas2DWarning,
    page_name: Seq<char>,
    charts: TextureAtlas2DSerialization,
    width: u32,
    height: u32,
    samples: Seq<u8>,
) -> bool {
    &&& atlas.wf()
    &&& atlas.width == width
    &&& atlas.height == height
    &&& atlas.color_type == ColorType::Rgba8
    &&& atlas.spec_origin() == charts.origin
    &&& atlas.spec_atlas_name() == page_name
    &&& atlas.spec_bytes() == spec_orient(samples, charts.origin, height as nat, 4 * width as nat)
    &&& atlas.spec_texture_count() == charts.coordinate_charts.len()
    &&& forall|k: int|
        0 <= k < charts.coordinate_charts.len() ==> atlas.spec_texture_name(
            (#[trigger] charts.coordinate_charts@[k]).0 as int,
        ) == charts.coordinate_charts@[k].1.name@ && atlas.spec_texture_box(
            charts.coordinate_charts@[k].0 as int,
        ) == charts.coordinate_charts@[k].1.bounding_box
    &&& warning == spec_dimension_warning(width as nat, height as nat)
}

/// Build the page called `page_name` from its metadata record and the
/// decoded samples of its image: `width` x `height` pixels, row after row
/// from the top, `rgba8` where they are 8-bit RGBA. Fails with
/// `CouldNotLoadCoordinateCharts` where the record is no texture table, with
/// `UnrecognizedColorType` where the samples are not 8-bit RGBA, and with
/// `CouldNotLoadAtlasImageBuffer` where there are not `4 * width * height`
/// of them. The page carries a warning where a dimension is not a power of two.
pub fn page_from_image(
    page_name: &str,
    charts: &TextureAtlas2DSerialization,
    width: u32,
    height: u32,
    rgba8: bool,
    samples: Vec<u8>,
) -> (r: Result<TextureAtlas2DResult, TextureAtlas2DError>)
    ensures
        ({
            let table = spec_is_texture_table(spec_chart_entries(charts.coordinate_charts@));
            match r {
                Ok(res) => table && rgba8 && samples.len() == width * height * 4 && spec_decoded_page(
                    res.atlas,
                    res.warnings,
                    page_name@,
                    *charts,
                    width,
                    height,
                    samples@,
                ),
                Err(e) => e.name@ == page_name@ && e.cause is None && if !table {
                    e.kind == ErrorKind::CouldNotLoadCoordinateCharts
                } else if !rgba8 {
                    e.kind == ErrorKind::UnrecognizedColorType
                } else {
                    samples.len() != width * height * 4 && e.kind == ErrorKind::CouldNotLoadAtlasImageBuffer
                },
            }
        }),
{
    let entries = charts.entries();
    if !is_texture_table(&entries) {
        let kind = ErrorKind::CouldNotLoadCoordinateCharts;
        return Err(TextureAtlas2DError::new(kind, page_name.to_owned(), None));
    }
    if !rgba8 {
        let kind = ErrorKind::UnrecognizedColorType;
        return Err(TextureAtlas2DError::new(kind, page_name.to_owned(), None));
    }
    assert((width as u128) * (height as u128) * 4 <= 0x4_0000_0000_0000_0000u128) by (nonlinear_arith)
        requires
            width <= u32::MAX,
            height <= u32::MAX,
    ;
    let expected = (width as u128) * (height as u128) * 4;
    if samples.len() as u128 != expected {
        let kind = ErrorKind::CouldNotLoadAtlasImageBuffer;
        return Err(TextureAtlas2DError::new(kind, page_name.to_owned(), None));
    }
    let w = width as usize;
    let h = height as usize;
    let stride: usize = if h == 0 {
        0
    } else {
        assert(w * 4 <= w * h * 4) by (nonlinear_arith)
            requires
                h >= 1,
        ;
        w * 4
    };
    let mut data = samples;
    proof {
        assert(data.len() == h * stride) by (nonlinear_arith)
            requires
                data.len() == w * h * 4,
                h == 0 ==> stride == 0,
                h > 0 ==> stride == w * 4,
        ;
        if h == 0 {
            assert(data@.len() == 0);
            assert(spec_orient(data@, charts.origin, h as nat, stride as nat) =~= spec_orient(
                data@,
                charts.origin,
                h as nat,
                4 * w as nat,
            ));
        }
    }
    let ghost samples_view = data@;
    orient_image(&mut data, charts.origin, h, stride);
    let warnings = dimension_warning(width, height);
    let atlas = TextureAtlas2D::new(
        w,
        h,
        ColorType::Rgba8,
        charts.origin,
        entries,
        page_name.to_owned(),
        data,
    );
    proof {
        assert(stride as nat == 4 * width as nat || h == 0);
        assert(atlas.spec_bytes() == spec_orient(samples_view, charts.origin, height as nat, 4 * width as nat));
        assert forall|k: int| 0 <= k < charts.coordinate_charts.len() implies atlas.spec_texture_name(
            (#[trigger] charts.coordinate_charts@[k]).0 as int,
        ) == charts.coordinate_charts@[k].1.name@ && atlas.spec_texture_box(
            charts.coordinate_charts@[k].0 as int,
        ) == charts.coordinate_charts@[k].1.bounding_box by {
            assert(entries@[k] == (
                charts.coordinate_charts@[k].0,
                charts.coordinate_charts@[k].1.name,
                charts.coordinate_charts@[k].1.bounding_box,
            ));
        }
    }
    Ok(TextureAtlas2DResult { atlas: atlas, warnings: warnings })
}

/// The page decodes from its metadata record and the PNG image held in
/// `png`: the record is a texture table and the image decodes to 8-bit RGBA.
pub open spec fn spec_page_decodes(charts: TextureAtlas2DSerialization, png: Seq<u8>) -> bool {
    &&& spec_is_texture_table(spec_chart_entries(charts.coordinate_charts@))
    &&& png_decodes(png)
    &&& png_decoded(png).2
}

/// The error that decoding a page that does not decode gives: first the
/// metadata record, then the image, then its color type.
pub open spec fn spec_decode_error(charts: TextureAtlas2DSerialization, png: Seq<u8>) -> ErrorKind {
    if !spec_is_texture_table(spec_chart_entries(charts.coordinate_charts@)) {
        ErrorKind::CouldNotLoadCoordinateCharts
    } else if !png_decodes(png) {
        ErrorKind::CouldNotLoadAtlasImageBuffer
    } else {
        ErrorKind::UnrecognizedColorType
    }
}

/// Decode the page called `page_name` from its metadata record and the PNG
/// image held in `png`. Fails with `CouldNotLoadCoordinateCharts` where the
/// record is no texture table, then with `CouldNotLoadAtlasImageBuffer`
/// where the image does not decode, then with `UnrecognizedColorType` where
/// its samples are not 8-bit RGBA; otherwise builds the page as
/// `page_from_image` does from the decoded samples.
pub fn decode_page(page_name: &str, charts: &TextureAtlas2DSerialization, png: &[u8]) -> (r: Result<
    TextureAtlas2DResult,
    TextureAtlas2DError,
>)
    ensures
        r is Ok <==> spec_page_decodes(*charts, png@),
        r matches Ok(res) ==> spec_decoded_page(
            res.atlas,
            res.warnings,
            page_name@,
            *charts,
            png_decoded(png@).0,
            png_decoded(png@).1,
            png_decoded(png@).3,
        ),
        r matches Err(e) ==> e.name@ == page_name@ && e.kind == spec_decode_error(*charts, png@),
{
    let entries = charts.entries();
    if !is_texture_table(&entries) {
        let kind = ErrorKind::CouldNotLoadCoordinateCharts;
        return Err(TextureAtlas2DError::new(kind, page_name.to_owned(), None));
    }
    match decode_png(png) {
        Ok(decoded) => {
            let (width, height, rgba8, samples) = decoded;
            page_from_image(page_name, charts, width, height, rgba8, samples)
        },
        Err(e) => {
            let cause = Some(e.to_string());
            let kind = ErrorKind::CouldNotLoadAtlasImageBuffer;
            Err(TextureAtlas2DError::new(kind, page_name.to_owned(), cause))
        },
    }
}

/// Decode every page from its entries and its metadata record, the record of
/// page `i` at position `i`, into a multi-texture atlas whose page `i` is
/// called after page `i` of the entries. Succeeds exactly when every page
/// decodes; otherwise fails with the error `decode_page` gives on the first
/// page that does not.
pub fn decode_pages(pages: &Vec<PageEntries>, charts: &Vec<TextureAtlas2DSerialization>) -> (r: Result<
    MultiTextureAtlas2DResult,
    TextureAtlas2DError,
>)
    requires
        charts.len() == pages.len(),
    ensures
        r is Ok <==> forall|i: int|
            0 <= i < pages.len() ==> spec_page_decodes(charts@[i], (#[trigger] pages@[i]).image@),
        r matches Ok(m) ==> {
            &&& m.multi_atlas.wf()
            &&& m.multi_atlas.pages.len() == pages.len()
            &&& m.warnings.len() == pages.len()
            &&& forall|i: int|
                0 <= i < pages.len() ==> {
                    let decoded = png_decoded((#[trigger] pages@[i]).image@);
                    &&& m.multi_atlas.page_names@[i]@ == pages@[i].page_name@
                    &&& spec_decoded_page(
                        m.multi_atlas.pages@[i],
                        m.warnings@[i],
                        pages@[i].page_name@,
                        charts@[i],
                        decoded.0,
                        decoded.1,
                        decoded.3,
                    )
                }
        },
        r matches Err(e) ==> exists|i: int|
            0 <= i < pages.len() && !spec_page_decodes(charts@[i], (#[trigger] pages@[i]).image@) && (forall|
                j: int,
            |
                0 <= j < i ==> spec_page_decodes(charts@[j], #[trigger] pages@[j].image@))
                && e.name@ == pages@[i].page_name@ && e.kind == spec_decode_error(charts@[i], pages@[i].image@),
{
    let mut atlases: Vec<TextureAtlas2D> = Vec::new();
    let mut names: Vec<String> = Vec::new();
    let mut warnings: Vec<TextureAtlas2DWarning> = Vec::new();
    let mut i: usize = 0;
    while i < pages.len()
        invariant
            charts.len() == pages.len(),
            i <= pages.len(),
            atlases.len() == i,
            names.len() == i,
            warnings.len() == i,
            forall|j: int|
                0 <= j < i ==> {
                    let decoded = png_decoded((#[trigger] pages@[j]).image@);
                    &&& names@[j]@ == pages@[j].page_name@
                    &&& spec_page_decodes(charts@[j], pages@[j].image@)
                    &&& spec_decoded_page(
                        atlases@[j],
                        warnings@[j],
                        pages@[j].page_name@,
                        charts@[j],
                        decoded.0,
                        decoded.1,
                        decoded.3,
                    )
                },
        decreases pages.len() - i,
    {
        let page = &pages[i];
        let result = match decode_page(page.page_name.as_str(), &charts[i], page.image.as_slice()) {
            Ok(result) => result,
            Err(e) => {
                assert(!spec_page_decodes(charts@[i as int], pages@[i as int].image@));
                return Err(e);
            },
        };
        atlases.push(result.atlas);
        warnings.push(result.warnings);
        names.push(page.page_name.clone());
        i += 1;
    }
    let multi_atlas = MultiTextureAtlas2D::new(atlases, names);
    proof {
        assert forall|j: int| 0 <= j < multi_atlas.pages.len() implies (
        #[trigger] multi_atlas.pages@[j]).wf() by {
            assert(spec_decoded_page(
                atlases@[j],
                warnings@[j],
                pages@[j].page_name@,
                charts@[j],
                png_decoded(pages@[j].image@).0,
                png_decoded(pages@[j].image@).1,
                png_decoded(pages@[j].image@).3,
            ));
        }
    }
    Ok(MultiTextureAtlas2DResult { multi_atlas: multi_atlas, warnings: warnings })
}

/// The PNG entry of a page: its bytes oriented back to rows from the top of
/// the image, encoded as 8-bit RGBA.
pub open spec fn spec_page_png(page: TextureAtlas2D) -> Seq<u8> {
    png_encoded(
        spec_orient(page.spec_bytes(), page.spec_origin(), page.height as nat, 4 * page.width as nat),
        page.width as u32,
        page.height as u32,
    )
}

/// The entries of the container of a multi-texture atlas, each a name and
/// its contents: for each page in order, `<page>.json` with its metadata
/// bytes, then `<page>.png` with its image.
pub open spec fn spec_archive_entries(multi: MultiTextureAtlas2D, charts_json: Seq<Vec<u8>>) -> Seq<
    (Seq<char>, Seq<u8>),
> {
    Seq::new(
        2 * multi.pages@.len(),
        |k: int|
            if k % 2 == 0 {
                (multi.pages@[k / 2].spec_atlas_name() + spec_json_ext(), charts_json[k / 2]@)
            } else {
                (multi.pages@[k / 2].spec_atlas_name() + spec_png_ext(), spec_page_png(multi.pages@[k / 2]))
            },
    )
}

/// The page can be written as an 8-bit RGBA PNG image, which has at least
/// one row and one column.
pub open spec fn spec_encodable(page: TextureAtlas2D) -> bool {
    &&& page.color_type == ColorType::Rgba8
    &&& 0 < page.width <= u32::MAX
    &&& 0 < page.height <= u32::MAX
}

/// The error that writing a page that cannot be encoded gives.
pub open spec fn spec_encode_error(page: TextureAtlas2D) -> ErrorKind {
    if page.color_type != ColorType::Rgba8 {
        ErrorKind::UnrecognizedColorType
    } else {
        ErrorKind::CouldNotEncodeAtlasImageBuffer
    }
}

/// No entry holds more than the `0xFFFFFFFF` bytes a zip entry takes
/// without the large-file option.
pub open spec fn spec_entries_fit(entries: Seq<(Seq<char>, Seq<u8>)>) -> bool {
    forall|k: int| 0 <= k < entries.len() ==> (#[trigger] entries[k]).1.len() <= 0xFFFFFFFF
}

/// The names and contents of a list of entries.
pub open spec fn spec_entry_views(entries: Seq<(String, Vec<u8>)>) -> Seq<(Seq<char>, Seq<u8>)> {
    entries.map_values(|e: (String, Vec<u8>)| (e.0@, e.1@))
}

/// A copy of a byte buffer.
fn copy_bytes(data: &[u8]) -> (r: Vec<u8>)
    ensures
        r@ == data@,
{
    let mut out: Vec<u8> = Vec::new();
    let mut i: usize = 0;
    while i < data.len()
        invariant
            i <= data.len(),
            out@ == data@.subrange(0, i as int),
        decreases data.len() - i,
    {
        out.push(data[i]);
        i += 1;
    }
    out
}

/// The entries of the container of a multi-texture atlas, given the
/// metadata bytes of page `i` at position `i`: for each page, its metadata
/// entry and its image, oriented back to rows from the top and encoded as an
/// 8-bit RGBA PNG image. Succeeds exactly when every page can be encoded;
/// otherwise fails on the first page that cannot, with
/// `UnrecognizedColorType` where its pixels are not 8-bit RGBA and with
/// `CouldNotEncodeAtlasImageBuffer` where a dimension is zero or above `u32::MAX`.
pub fn archive_entries(multi: &MultiTextureAtlas2D, charts_json: &Vec<Vec<u8>>) -> (r: Result<
    Vec<(String, Vec<u8>)>,
    TextureAtlas2DError,
>)
    requires
        multi.wf(),
        charts_json.len() == multi.pages.len(),
    ensures
        r is Ok <==> forall|i: int| 0 <= i < multi.pages.len() ==> spec_encodable(#[trigger] multi.pages@[i]),
        r matches Ok(entries) ==> spec_entry_views(entries@) == spec_archive_entries(*multi, charts_json@),
        r matches Err(e) ==> exists|i: int|
            0 <= i < multi.pages.len() && !spec_encodable(#[trigger] multi.pages@[i]) && (forall|j: int|
                0 <= j < i ==> spec_encodable(#[trigger] multi.pages@[j])) && e.name@
                == multi.pages@[i].spec_atlas_name() && e.kind == spec_encode_error(multi.pages@[i]),
{
    proof {
        reveal_strlit(".json");
        reveal_strlit(".png");
        assert(".json"@ =~= spec_json_ext());
        assert(".png"@ =~= spec_png_ext());
    }
    let mut entries: Vec<(String, Vec<u8>)> = Vec::new();
    let mut i: usize = 0;
    while i < multi.pages.len()
        invariant
            ".json"@ == spec_json_ext(),
            ".png"@ == spec_png_ext(),
            multi.wf(),
            charts_json.len() == multi.pages.len(),
            i <= multi.pages.len(),
            forall|j: int| 0 <= j < i ==> spec_encodable(#[trigger] multi.pages@[j]),
            spec_entry_views(entries@) == spec_archive_entries(*multi, charts_json@).take(2 * i),
        decreases multi.pages.len() - i,
    {
        let page = &multi.pages[i];
        assert(page.wf());
        if page.color_type != ColorType::Rgba8 {
            let kind = ErrorKind::UnrecognizedColorType;
            return Err(TextureAtlas2DError::new(kind, page.atlas_name.clone(), None));
        }
        if page.width == 0 || page.height == 0 || page.width > u32::MAX as usize
            || page.height > u32::MAX as usize {
            let kind = ErrorKind::CouldNotEncodeAtlasImageBuffer;
            return Err(TextureAtlas2DError::new(kind, page.atlas_name.clone(), None));
        }
        let charts_name = with_extension(&page.atlas_name, ".json");
        let charts = copy_bytes(charts_json[i].as_slice());
        let mut pixels = copy_bytes(page.as_bytes());
        assert(page.width * 4 <= page.width * page.height * 4) by (nonlinear_arith)
            requires
                page.height >= 1,
        ;
        let width_in_bytes: usize = page.width * 4;
        proof {
            assert(pixels.len() == page.height * width_in_bytes) by (nonlinear_arith)
                requires
                    pixels.len() == page.width * page.height * 4,
                    width_in_bytes == page.width * 4,
            ;
        }
        orient_image(&mut pixels, page.origin, page.height, width_in_bytes);
        let png = match encode_png(pixels.as_slice(), page.width as u32, page.height as u32) {
            Ok(png) => png,
            Err(e) => {
                let cause = Some(e.to_string());
                let kind = ErrorKind::CouldNotEncodeAtlasImageBuffer;
                return Err(TextureAtlas2DError::new(kind, page.atlas_name.clone(), cause));
            },
        };
        let image_name = with_extension(&page.atlas_name, ".png");
        let ghost before = entries@;
        entries.push((charts_name, charts));
        entries.push((image_name, png));
        proof {
            let want = spec_archive_entries(*multi, charts_json@);
            assert(spec_entry_views(before).len() == before.len());
            assert(want.take(2 * i).len() == 2 * i);
            assert(before.len() == 2 * i);
            assert(entries@ == before.push(entries@[2 * i]).push(entries@[2 * i + 1]));
            assert(want[2 * i] == (page.spec_atlas_name() + spec_json_ext(), charts_json@[i as int]@));
            assert(want[2 * i + 1] == (page.spec_atlas_name() + spec_png_ext(), spec_page_png(*page)));
            assert forall|k: int| 0 <= k < 2 * i + 2 implies #[trigger] spec_entry_views(entries@)[k]
                == want[k] by {
                if k < 2 * i {
                    assert(entries@[k] == before[k]);
                    assert(spec_entry_views(before)[k] == want.take(2 * i)[k]);
                }
            }
            assert(spec_entry_views(entries@) =~= want.take(2 * i + 2));
        }
        i += 1;
    }
    proof {
        let want = spec_archive_entries(*multi, charts_json@);
        assert(want.take(2 * i) =~= want);
    }
    Ok(entries)
}

/// Write entries, each a name and its contents, into a new zip archive in
/// memory, in order. Succeeds wherever no entry holds more than
/// `0xFFFFFFFF` bytes; fails with `CouldNotWriteTextureAtlas` where the
/// archive writer fails.
pub fn write_archive(entries: &Vec<(String, Vec<u8>)>) -> (r: Result<Vec<u8>, TextureAtlas2DError>)
    ensures
        spec_entries_fit(spec_entry_views(entries@)) ==> r is Ok,
        r matches Ok(bytes) ==> bytes@ == zip_archive_of(spec_entry_views(entries@)),
        r matches Err(e) ==> e.kind == ErrorKind::CouldNotWriteTextureAtlas,
{
    let mut writer = new_archive_writer();
    let mut i: usize = 0;
    while i < entries.len()
        invariant
            i <= entries.len(),
            zip_writer_open(writer),
            zip_written(writer) == spec_entry_views(entries@).take(i as int),
        decreases entries.len() - i,
    {
        let entry = &entries[i];
        proof {
            if spec_entries_fit(spec_entry_views(entries@)) {
                assert(spec_entry_views(entries@)[i as int].1.len() <= 0xFFFFFFFF);
            }
        }
        if let Err(e) = start_entry(&mut writer, entry.0.as_str()) {
            let kind = ErrorKind::CouldNotWriteTextureAtlas;
            return Err(TextureAtlas2DError::new(kind, entry.0.clone(), Some(e.to_string())));
        }
        if let Err(e) = write_entry_data(&mut writer, entry.1.as_slice()) {
            let kind = ErrorKind::CouldNotWriteTextureAtlas;
            return Err(TextureAtlas2DError::new(kind, entry.0.clone(), Some(e.to_string())));
        }
        proof {
            assert(zip_written(writer) =~= spec_entry_views(entries@).take(i + 1));
        }
        i += 1;
    }
    proof {
        assert(spec_entry_views(entries@).take(i as int) =~= spec_entry_views(entries@));
    }
    match finish_archive(writer) {
        Ok(bytes) => Ok(bytes),
        Err(e) => {
            let kind = ErrorKind::CouldNotWriteTextureAtlas;
            Err(TextureAtlas2DError::new(kind, String::new(), Some(e.to_string())))
        },
    }
}

/// Write a multi-texture atlas into a new atlas container in memory, given
/// the metadata bytes of page `i` at position `i`: the zip archive of the
/// entries `archive_entries` gives. Succeeds where every page can be encoded
/// and no entry holds more than `0xFFFFFFFF` bytes; fails as
/// `archive_entries` and `write_archive` do.
pub fn encode_multi_atlas(multi: &MultiTextureAtlas2D, charts_json: &Vec<Vec<u8>>) -> (r: Result<
    Vec<u8>,
    TextureAtlas2DError,
>)
    requires
        multi.wf(),
        charts_json.len() == multi.pages.len(),
    ensures
        (forall|i: int| 0 <= i < multi.pages.len() ==> spec_encodable(#[trigger] multi.pages@[i]))
            && spec_entries_fit(spec_archive_entries(*multi, charts_json@)) ==> r is Ok,
        (exists|i: int| 0 <= i < multi.pages.len() && !spec_encodable(#[trigger] multi.pages@[i])) ==> r is Err,
        r matches Ok(bytes) ==> bytes@ == zip_archive_of(spec_archive_entries(*multi, charts_json@)),
        r matches Err(e) ==> e.kind == ErrorKind::CouldNotWriteTextureAtlas || e.kind
            == ErrorKind::CouldNotEncodeAtlasImageBuffer || e.kind == ErrorKind::UnrecognizedColorType,
{
    let entries = archive_entries(multi, charts_json)?;
    write_archive(&entries)
}

/// Two pages agree in their dimensions, layout, origin, name, textures by
/// index (name and pixel bounding box) and bytes.
pub open spec fn spec_same_page(a: TextureAtlas2D, b: TextureAtlas2D) -> bool {
    &&& a.width == b.width
    &&& a.height == b.height
    &&& a.color_type == b.color_type
    &&& a.channel_count == b.channel_count
    &&& a.bytes_per_pixel == b.bytes_per_pixel
    &&& a.spec_origin() == b.spec_origin()
    &&& a.spec_atlas_name() == b.spec_atlas_name()
    &&& a.spec_texture_count() == b.spec_texture_count()
    &&& forall|i: int|
        0 <= i < a.spec_texture_count() ==> (#[trigger] a.textures@[i]).name@ == b.textures@[i].name@
            && a.textures@[i].bounding_box == b.textures@[i].bounding_box
    &&& a.spec_bytes() == b.spec_bytes()
}

/// `charts` is the metadata record of `page`, as `coordinate_charts` gives it.
pub open spec fn spec_is_record_of(charts: TextureAtlas2DSerialization, page: TextureAtlas2D) -> bool {
    &&& charts.origin == page.spec_origin()
    &&& charts.coordinate_charts.len() == page.spec_texture_count()
    &&& forall|i: int|
        0 <= i < charts.coordinate_charts.len() ==> (#[trigger] charts.coordinate_charts@[i]).0 == i
            && charts.coordinate_charts@[i].1.name@ == page.spec_texture_name(i)
            && charts.coordinate_charts@[i].1.bounding_box == page.spec_texture_box(i)
}

/// Decoding gives back what encoding wrote. Encoding a page stores its
/// metadata record and hands its bytes, oriented back to rows from the top,
/// to the PNG encoder; decoding a page from that record and those samples
/// succeeds (the record is a texture table and there are `4 * width *
/// height` samples) and gives a page with the same width, height, color
/// type, origin, name, textures by index and bytes, byte for byte.
pub proof fn lemma_round_trip(
    page: TextureAtlas2D,
    charts: TextureAtlas2DSerialization,
    decoded: TextureAtlas2D,
    warning: TextureAtlas2DWarning,
)
    requires
        page.wf(),
        spec_encodable(page),
        spec_is_record_of(charts, page),
        spec_decoded_page(
            decoded,
            warning,
            page.spec_atlas_name(),
            charts,
            page.width as u32,
            page.height as u32,
            spec_orient(page.spec_bytes(), page.spec_origin(), page.height as nat, 4 * page.width as nat),
        ),
    ensures
        spec_is_texture_table(spec_chart_entries(charts.coordinate_charts@)),
        spec_orient(page.spec_bytes(), page.spec_origin(), page.height as nat, 4 * page.width as nat).len()
            == page.width * page.height * 4,
        spec_same_page(decoded, page),
{
    let h = page.height as nat;
    let stride = 4 * page.width as nat;
    let bytes = page.spec_bytes();
    assert(bytes.len() == h * stride) by (nonlinear_arith)
        requires
            bytes.len() == page.width * page.height * 4,
            h == page.height,
            stride == 4 * page.width,
    ;
    lemma_orient_involution(bytes, page.spec_origin(), h, stride);
    assert((page.width as u32) as nat == page.width as nat);
    assert((page.height as u32) as nat == page.height as nat);
    assert(decoded.width == page.width);
    assert(decoded.height == page.height);
    assert(decoded.spec_bytes() == bytes);
    let entries = spec_chart_entries(charts.coordinate_charts@);
    assert forall|k: int, l: int|
        0 <= k < entries.len() && 0 <= l < entries.len() && k != l implies (#[trigger] entries[k]).1@
        != (#[trigger] entries[l]).1@ by {
        assert(charts.coordinate_charts@[k].0 == k);
        assert(charts.coordinate_charts@[l].0 == l);
        assert(page.textures@[k].name@ != page.textures@[l].name@);
    }
    assert forall|k: int, l: int|
        0 <= k < entries.len() && 0 <= l < entries.len() && k != l implies #[trigger] entries[k].0
        != #[trigger] entries[l].0 by {
        assert(charts.coordinate_charts@[k].0 == k);
        assert(charts.coordinate_charts@[l].0 == l);
    }
    assert forall|k: int| 0 <= k < entries.len() implies #[trigger] entries[k].0 < entries.len() by {
        assert(charts.coordinate_charts@[k].0 == k);
    }
    assert forall|i: int| 0 <= i < decoded.spec_texture_count() implies (#[trigger] decoded.textures@[i]).name@
        == page.textures@[i].name@ && decoded.textures@[i].bounding_box == page.textures@[i].bounding_box by {
        assert(charts.coordinate_charts@[i].0 == i);
    }
    assert(decoded.height == page.height);
    assert(decoded.channel_count == page.channel_count);
    assert(spec_same_page(decoded, page));
}

} // verus!
