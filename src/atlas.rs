use vstd::prelude::*;
use crate::color::ColorType;
use crate::coords::{
    corners_of, corners_of_uv, pixel_to_tex, spec_corners, spec_corners_uv, spec_pixel_to_tex,
    BoundingBoxCornersPixelCoords, BoundingBoxCornersTexCoords, BoundingBoxPixelCoords,
    BoundingBoxTexCoords, Origin,
};
use crate::pixels::TextureImage2D;

verus! {

/// One texture as the atlas is built from it: its index, its name and its
/// bounding box in pixels.
pub type TextureEntry = (usize, String, BoundingBoxPixelCoords);

/// The entries describe a texture table: the `n` entries carry distinct
/// indices below `n`, so that each index in `[0, n)` belongs to exactly one
/// of them, and no two entries share a name.
pub open spec fn spec_is_texture_table(entries: Seq<TextureEntry>) -> bool {
    &&& forall|k: int| 0 <= k < entries.len() ==> #[trigger] entries[k].0 < entries.len()
    &&& forall|k: int, l: int|
        0 <= k < entries.len() && 0 <= l < entries.len() && k != l ==> #[trigger] entries[k].0
            != #[trigger] entries[l].0
    &&& forall|k: int, l: int|
        0 <= k < entries.len() && 0 <= l < entries.len() && k != l ==> (#[trigger] entries[k]).1@
            != (#[trigger] entries[l]).1@
}

/// Decide whether the entries describe a texture table.
pub fn is_texture_table(entries: &Vec<TextureEntry>) -> (r: bool)
    ensures
        r == spec_is_texture_table(entries@),
{
    let n = entries.len();
    let mut k: usize = 0;
    while k < n
        invariant
            n == entries.len(),
            k <= n,
            forall|k2: int| 0 <= k2 < k ==> #[trigger] entries@[k2].0 < n,
        decreases n - k,
    {
        if entries[k].0 >= n {
            return false;
        }
        k += 1;
    }
    let mut k: usize = 0;
    while k < n
        invariant
            n == entries.len(),
            k <= n,
            forall|k2: int| 0 <= k2 < n ==> #[trigger] entries@[k2].0 < n,
            forall|k2: int, l2: int|
                0 <= k2 < k && 0 <= l2 < n && k2 != l2 ==> #[trigger] entries@[k2].0
                    != #[trigger] entries@[l2].0,
            forall|k2: int, l2: int|
                0 <= k2 < k && 0 <= l2 < n && k2 != l2 ==> (#[trigger] entries@[k2]).1@
                    != (#[trigger] entries@[l2]).1@,
        decreases n - k,
    {
        let mut l: usize = 0;
        while l < n
            invariant
                n == entries.len(),
                k < n,
                l <= n,
                forall|k2: int| 0 <= k2 < n ==> #[trigger] entries@[k2].0 < n,
                forall|k2: int, l2: int|
                    0 <= k2 < k && 0 <= l2 < n && k2 != l2 ==> #[trigger] entries@[k2].0
                        != #[trigger] entries@[l2].0,
                forall|k2: int, l2: int|
                    0 <= k2 < k && 0 <= l2 < n && k2 != l2 ==> (#[trigger] entries@[k2]).1@
                        != (#[trigger] entries@[l2]).1@,
                forall|l2: int|
                    0 <= l2 < l && l2 != k ==> entries@[k as int].0 != (#[trigger] entries@[l2]).0
                        && entries@[k as int].1@ != entries@[l2].1@,
            decreases n - l,
        {
            if l != k {
                if entries[k].0 == entries[l].0 {
                    return false;
                }
                let same_name = entries[k].1.eq(&entries[l].1);
                if same_name {
                    return false;
                }
                assert(entries@[k as int].1@ != entries@[l as int].1@);
            }
            l += 1;
        }
        assert forall|k2: int, l2: int|
            0 <= k2 < k + 1 && 0 <= l2 < n && k2 != l2 implies (#[trigger] entries@[k2]).1@
            != (#[trigger] entries@[l2]).1@ by {
            if k2 == k {
                assert(entries@[k2].1@ != entries@[l2].1@);
            }
        }
        k += 1;
    }
    true
}

/// `n` distinct indices below `n` take every value below `n`.
proof fn lemma_distinct_indices_cover(entries: Seq<TextureEntry>, i: int)
    requires
        0 <= i < entries.len(),
        forall|k: int| 0 <= k < entries.len() ==> #[trigger] entries[k].0 < entries.len(),
        forall|k: int, l: int|
            0 <= k < entries.len() && 0 <= l < entries.len() && k != l ==> #[trigger] entries[k].0
                != #[trigger] entries[l].0,
    ensures
        exists|k: int| 0 <= k < entries.len() && #[trigger] entries[k].0 == i,
{
    let n = entries.len();
    let idx = Seq::new(n, |k: int| entries[k].0 as int);
    let taken = idx.to_set();
    assert(idx.no_duplicates()) by {
        assert forall|a: int, b: int| 0 <= a < idx.len() && 0 <= b < idx.len() && a != b implies idx[a]
            != idx[b] by {
            assert(entries[a].0 != entries[b].0);
        }
    }
    idx.unique_seq_to_set();
    let range = Set::new(|x: int| 0 <= x < n);
    assert(taken.subset_of(range)) by {
        assert forall|x: int| taken.contains(x) implies range.contains(x) by {
            let a = choose|a: int| 0 <= a < idx.len() && idx[a] == x;
            assert(entries[a].0 < n);
        }
    }
    assert(range =~= vstd::set_lib::set_int_range(0, n as int));
    vstd::set_lib::lemma_int_range(0, n as int);
    if !taken.contains(i) {
        assert(taken.subset_of(range.remove(i))) by {
            assert forall|x: int| taken.contains(x) implies range.remove(i).contains(x) by {}
        }
        vstd::set_lib::lemma_len_subset(taken, range.remove(i));
        assert(false);
    }
    let a = choose|a: int| 0 <= a < idx.len() && idx[a] == i;
    assert(entries[a].0 == i);
}

/// A texture of the atlas: its name and where it lies in the atlas image.
#[derive(Clone, Debug)]
pub struct AtlasEntry {
    /// The name of the texture.
    pub name: String,
    /// The bounding box of the texture in pixels.
    pub bounding_box: BoundingBoxPixelCoords,
}

impl AtlasEntry {
    pub fn new(name: String, bounding_box: BoundingBoxPixelCoords) -> (r: AtlasEntry)
        ensures
            r.name@ == name@,
            r.bounding_box == bounding_box,
    {
        AtlasEntry { name: name, bounding_box: bounding_box }
    }
}

/// All the data of one texture atlas page: the image, its layout, the origin
/// its bounding boxes are read from, and its textures. Texture `i` is held at
/// position `i`, and no two textures share a name, so the name of a texture
/// and its index determine each other.
#[derive(Clone, Debug)]
pub struct TextureAtlas2D {
    /// The width of the texture atlas in pixels.
    pub width: usize,
    /// The height of the texture atlas in pixel.
    pub height: usize,
    /// The number of channels per pixel.
    pub channel_count: usize,
    /// The number of bytes per pixel.
    pub bytes_per_pixel: usize,
    /// The color space of the atlas image.
    pub color_type: ColorType,
    /// The origin in the atlas image for orienting the texture.
    pub origin: Origin,
    /// The textures, texture `i` at position `i`.
    pub textures: Vec<AtlasEntry>,
    /// The name of the texture atlas.
    pub atlas_name: String,
    /// The underlying texture image.
    pub data: TextureImage2D,
}

impl TextureAtlas2D {
    /// The layout fields agree with the image, the image holds exactly
    /// `width * height` pixels, and the texture names are distinct.
    pub open spec fn wf(&self) -> bool {
        &&& self.data.wf()
        &&& self.data.width == self.width
        &&& self.data.height == self.height
        &&& self.data.color_type == self.color_type
        &&& self.channel_count == self.color_type.spec_channel_count()
        &&& self.bytes_per_pixel == self.color_type.spec_bytes_per_pixel()
        &&& forall|i: int, j: int|
            0 <= i < self.textures.len() && 0 <= j < self.textures.len() && i != j
                ==> (#[trigger] self.textures@[i]).name@ != (#[trigger] self.textures@[j]).name@
    }

    /// The origin the bounding boxes are read from.
    pub open spec fn spec_origin(&self) -> Origin {
        self.origin
    }

    /// The name of the atlas page.
    pub open spec fn spec_atlas_name(&self) -> Seq<char> {
        self.atlas_name@
    }

    /// The raw bytes of the atlas image.
    pub open spec fn spec_bytes(&self) -> Seq<u8> {
        self.data.data@
    }

    /// The number of textures.
    pub open spec fn spec_texture_count(&self) -> nat {
        self.textures@.len()
    }

    /// The name of texture `i`.
    pub open spec fn spec_texture_name(&self, i: int) -> Seq<char> {
        self.textures@[i].name@
    }

    /// The pixel bounding box of texture `i`.
    pub open spec fn spec_texture_box(&self, i: int) -> BoundingBoxPixelCoords {
        self.textures@[i].bounding_box
    }

    /// The index of the texture called `name`, if there is one.
    pub open spec fn spec_index_of(&self, name: Seq<char>) -> Option<int> {
        if exists|i: int| 0 <= i < self.spec_texture_count() && self.spec_texture_name(i) == name {
            Some(choose|i: int| 0 <= i < self.spec_texture_count() && self.spec_texture_name(i) == name)
        } else {
            None
        }
    }

    /// The pixel bounding box of texture `index`, if there is one.
    pub open spec fn spec_by_index(&self, index: int) -> Option<BoundingBoxPixelCoords> {
        if 0 <= index < self.spec_texture_count() {
            Some(self.spec_texture_box(index))
        } else {
            None
        }
    }

    /// The pixel bounding box of the texture called `name`, if there is one.
    pub open spec fn spec_by_texture_name(&self, name: Seq<char>) -> Option<BoundingBoxPixelCoords> {
        match self.spec_index_of(name) {
            Some(i) => Some(self.spec_texture_box(i)),
            None => None,
        }
    }

    /// A bounding box in the texture coordinates of this atlas.
    pub open spec fn spec_uv(&self, b: Option<BoundingBoxPixelCoords>) -> Option<BoundingBoxTexCoords> {
        match b {
            Some(b) => spec_pixel_to_tex(b, self.width, self.height),
            None => None,
        }
    }

    /// The corners of a bounding box read from the origin of this atlas.
    pub open spec fn spec_corners_of(&self, b: Option<BoundingBoxPixelCoords>) -> Option<
        BoundingBoxCornersPixelCoords,
    > {
        match b {
            Some(b) => spec_corners(b, self.spec_origin()),
            None => None,
        }
    }

    /// The corners of a bounding box in the texture coordinates of this atlas.
    pub open spec fn spec_corners_uv_of(&self, b: Option<BoundingBoxPixelCoords>) -> Option<
        BoundingBoxCornersTexCoords,
    > {
        match b {
            Some(b) => spec_corners_uv(b, self.spec_origin(), self.width, self.height),
            None => None,
        }
    }

    /// Construct a new texture atlas page from its dimensions, color type,
    /// origin, textures, name and image bytes, row after row. Each entry
    /// becomes the texture with its index.
    pub fn new(
        width: usize,
        height: usize,
        color_type: ColorType,
        origin: Origin,
        entries: Vec<TextureEntry>,
        atlas_name: String,
        data: Vec<u8>,
    ) -> (r: TextureAtlas2D)
        requires
            data.len() == width * height * color_type.spec_bytes_per_pixel(),
            spec_is_texture_table(entries@),
        ensures
            r.wf(),
            r.width == width,
            r.height == height,
            r.color_type == color_type,
            r.spec_origin() == origin,
            r.spec_atlas_name() == atlas_name@,
            r.spec_bytes() == data@,
            r.spec_texture_count() == entries.len(),
            forall|k: int|
                0 <= k < entries.len() ==> r.spec_texture_name((#[trigger] entries@[k]).0 as int)
                    == entries@[k].1@ && r.spec_texture_box(entries@[k].0 as int) == entries@[k].2,
    {
        let image_data = TextureImage2D::new(width, height, color_type, data);
        let n = entries.len();
        let mut textures: Vec<AtlasEntry> = Vec::new();
        let ghost mut source: Seq<int> = Seq::empty();
        let mut i: usize = 0;
        while i < n
            invariant
                n == entries.len(),
                spec_is_texture_table(entries@),
                i <= n,
                textures.len() == i,
                source.len() == i,
                forall|j: int|
                    0 <= j < i ==> 0 <= #[trigger] source[j] < n && entries@[source[j]].0 == j
                        && textures@[j].name@ == entries@[source[j]].1@ && textures@[j].bounding_box
                        == entries@[source[j]].2,
            decreases n - i,
        {
            proof {
                lemma_distinct_indices_cover(entries@, i as int);
            }
            let mut k: usize = 0;
            while entries[k].0 != i
                invariant
                    n == entries.len(),
                    i < n,
                    k < n,
                    exists|k2: int| 0 <= k2 < n && #[trigger] entries@[k2].0 == i,
                    forall|k2: int| 0 <= k2 < k ==> #[trigger] entries@[k2].0 != i,
                decreases n - k,
            {
                k += 1;
                if k == n {
                    assert(false);
                }
            }
            let name = entries[k].1.clone();
            textures.push(AtlasEntry::new(name, entries[k].2));
            proof {
                source = source.push(k as int);
            }
            i += 1;
        }
        proof {
            assert forall|k: int| 0 <= k < n implies textures@[(#[trigger] entries@[k]).0 as int].name@
                == entries@[k].1@ && textures@[entries@[k].0 as int].bounding_box == entries@[k].2 by {
                let j = entries@[k].0 as int;
                assert(entries@[source[j]].0 == j);
                assert(source[j] == k);
            }
            assert forall|a: int, b: int|
                0 <= a < n && 0 <= b < n && a != b implies (#[trigger] textures@[a]).name@
                != (#[trigger] textures@[b]).name@ by {
                assert(entries@[source[a]].0 != entries@[source[b]].0);
                assert(source[a] != source[b]);
            }
        }
        TextureAtlas2D {
            width: width,
            height: height,
            channel_count: image_data.channel_count,
            bytes_per_pixel: image_data.bytes_per_pixel,
            color_type: color_type,
            origin: origin,
            textures: textures,
            atlas_name: atlas_name,
            data: image_data,
        }
    }

    /// Decide whether the page is well formed: its layout fields agree with
    /// its image, the image holds exactly `width * height` pixels, and the
    /// texture names are distinct.
    pub fn is_well_formed(&self) -> (r: bool)
        ensures
            r == self.wf(),
    {
        if !self.data.is_well_formed() {
            return false;
        }
        if self.data.width != self.width || self.data.height != self.height
            || self.data.color_type != self.color_type {
            return false;
        }
        if self.channel_count != self.color_type.channel_count()
            || self.bytes_per_pixel != self.color_type.bytes_per_pixel() {
            return false;
        }
        let n = self.textures.len();
        let mut i: usize = 0;
        while i < n
            invariant
                n == self.textures.len(),
                i <= n,
                forall|a: int, b: int|
                    0 <= a < i && 0 <= b < n && a != b ==> (#[trigger] self.textures@[a]).name@
                        != (#[trigger] self.textures@[b]).name@,
            decreases n - i,
        {
            let mut j: usize = 0;
            while j < n
                invariant
                    n == self.textures.len(),
                    i < n,
                    j <= n,
                    forall|a: int, b: int|
                        0 <= a < i && 0 <= b < n && a != b ==> (#[trigger] self.textures@[a]).name@
                            != (#[trigger] self.textures@[b]).name@,
                    forall|b: int|
                        0 <= b < j && b != i ==> self.textures@[i as int].name@ != (
                        #[trigger] self.textures@[b]).name@,
                decreases n - j,
            {
                if j != i && self.textures[i].name.eq(&self.textures[j].name) {
                    return false;
                }
                j += 1;
            }
            assert forall|a: int, b: int|
                0 <= a < i + 1 && 0 <= b < n && a != b implies (#[trigger] self.textures@[a]).name@
                != (#[trigger] self.textures@[b]).name@ by {
                if a == i {
                    assert(self.textures@[i as int].name@ != self.textures@[b].name@);
                }
            }
            i += 1;
        }
        true
    }

    /// Get the length of texture atlas image in units of the number of pixels.
    #[inline]
    pub fn len_pixels(&self) -> (r: usize)
        requires
            self.wf(),
        ensures
            r == self.width * self.height,
    {
        self.data.len_pixels()
    }

    /// Get the length of the texture atlas image in units of bytes.
    #[inline]
    pub fn len_bytes(&self) -> (r: usize)
        requires
            self.wf(),
        ensures
            r == self.width * self.height * self.bytes_per_pixel,
            r == self.spec_bytes().len(),
    {
        self.data.len_bytes()
    }

    /// Get a view into the texture atlas image as a byte slice.
    #[inline]
    pub fn as_bytes(&self) -> (r: &[u8])
        ensures
            r@ == self.spec_bytes(),
    {
        self.data.as_bytes()
    }

    /// Get the number of textures in the texture atlas.
    #[inline]
    pub fn texture_count(&self) -> (r: usize)
        ensures
            r == self.spec_texture_count(),
    {
        self.textures.len()
    }

    /// Get the position of the origin in the texture atlas.
    #[inline]
    pub fn origin(&self) -> (r: Origin)
        ensures
            r == self.spec_origin(),
    {
        self.origin
    }

    /// Get the name of the texture atlas.
    #[inline]
    pub fn atlas_name(&self) -> (r: &str)
        ensures
            r@ == self.spec_atlas_name(),
    {
        self.atlas_name.as_str()
    }

    /// Get the names of all the textures inside the texture atlas, the name
    /// of texture `i` at position `i`.
    pub fn texture_names(&self) -> (r: Vec<String>)
        ensures
            r.len() == self.spec_texture_count(),
            forall|i: int| 0 <= i < r.len() ==> (#[trigger] r@[i])@ == self.spec_texture_name(i),
    {
        let mut names: Vec<String> = Vec::new();
        let mut i: usize = 0;
        while i < self.textures.len()
            invariant
                i <= self.textures.len(),
                names.len() == i,
                forall|j: int| 0 <= j < i ==> (#[trigger] names@[j])@ == self.spec_texture_name(j),
            decreases self.textures.len() - i,
        {
            names.push(self.textures[i].name.clone());
            i += 1;
        }
        names
    }

    /// Get the indices of all the textures inside the texture atlas, in
    /// increasing order.
    pub fn indices(&self) -> (r: Vec<usize>)
        ensures
            r.len() == self.spec_texture_count(),
            forall|i: int| 0 <= i < r.len() ==> #[trigger] r@[i] == i,
    {
        let mut indices: Vec<usize> = Vec::new();
        let mut i: usize = 0;
        while i < self.textures.len()
            invariant
                i <= self.textures.len(),
                indices.len() == i,
                forall|j: int| 0 <= j < i ==> #[trigger] indices@[j] == j,
            decreases self.textures.len() - i,
        {
            indices.push(i);
            i += 1;
        }
        indices
    }

    /// Find the index of the texture called `name`.
    fn find_texture(&self, name: &str) -> (r: Option<usize>)
        requires
            self.wf(),
        ensures
            match r {
                Some(i) => self.spec_index_of(name@) == Some(i as int),
                None => self.spec_index_of(name@) is None,
            },
    {
        let target = name.to_owned();
        let mut i: usize = 0;
        while i < self.textures.len()
            invariant
                self.wf(),
                target@ == name@,
                i <= self.textures.len(),
                forall|j: int| 0 <= j < i ==> self.spec_texture_name(j) != name@,
            decreases self.textures.len() - i,
        {
            if self.textures[i].name.eq(&target) {
                proof {
                    assert(self.spec_texture_name(i as int) == name@);
                    let j = choose|j: int|
                        0 <= j < self.spec_texture_count() && self.spec_texture_name(j) == name@;
                    assert(self.textures@[j].name@ == self.textures@[i as int].name@);
                }
                return Some(i);
            }
            i += 1;
        }
        None
    }

    /// Get the bounding box in units of pixels for a texture by name.
    pub fn by_texture_name(&self, name: &str) -> (r: Option<BoundingBoxPixelCoords>)
        requires
            self.wf(),
        ensures
            r == self.spec_by_texture_name(name@),
    {
        match self.find_texture(name) {
            Some(index) => Some(self.textures[index].bounding_box),
            None => None,
        }
    }

    /// Get the bounding box in units of the unit square for a texture by name.
    pub fn by_texture_name_uv(&self, name: &str) -> (r: Option<BoundingBoxTexCoords>)
        requires
            self.wf(),
        ensures
            r == self.spec_uv(self.spec_by_texture_name(name@)),
    {
        match self.by_texture_name(name) {
            Some(bounding_box) => pixel_to_tex(bounding_box, self.width, self.height),
            None => None,
        }
    }

    /// Get the bounding box in units of pixels for a texture by index.
    pub fn by_index(&self, index: usize) -> (r: Option<BoundingBoxPixelCoords>)
        ensures
            r == self.spec_by_index(index as int),
    {
        if index < self.textures.len() {
            Some(self.textures[index].bounding_box)
        } else {
            None
        }
    }

    /// Get the bounding box in units of the unit square for a texture by index.
    pub fn by_index_uv(&self, index: usize) -> (r: Option<BoundingBoxTexCoords>)
        ensures
            r == self.spec_uv(self.spec_by_index(index as int)),
    {
        match self.by_index(index) {
            Some(bounding_box) => pixel_to_tex(bounding_box, self.width, self.height),
            None => None,
        }
    }

    /// Get the corners in units of pixels of a texture by index, read from
    /// the origin of the atlas.
    pub fn by_index_corners(&self, index: usize) -> (r: Option<BoundingBoxCornersPixelCoords>)
        ensures
            r == self.spec_corners_of(self.spec_by_index(index as int)),
    {
        match self.by_index(index) {
            Some(bounding_box) => corners_of(bounding_box, self.origin),
            None => None,
        }
    }

    /// Get the corners in units of the unit square of a texture by index,
    /// read from the origin of the atlas.
    pub fn by_index_corners_uv(&self, index: usize) -> (r: Option<BoundingBoxCornersTexCoords>)
        ensures
            r == self.spec_corners_uv_of(self.spec_by_index(index as int)),
    {
        match self.by_index(index) {
            Some(bounding_box) => corners_of_uv(bounding_box, self.origin, self.width, self.height),
            None => None,
        }
    }

    /// Get the corners in units of pixels of a texture by name, read from
    /// the origin of the atlas.
    pub fn by_texture_name_corners(&self, name: &str) -> (r: Option<BoundingBoxCornersPixelCoords>)
        requires
            self.wf(),
        ensures
            r == self.spec_corners_of(self.spec_by_texture_name(name@)),
    {
        match self.by_texture_name(name) {
            Some(bounding_box) => corners_of(bounding_box, self.origin),
            None => None,
        }
    }

    /// Get the corners in units of the unit square of a texture by name,
    /// read from the origin of the atlas.
    pub fn by_texture_name_corners_uv(&self, name: &str) -> (r: Option<BoundingBoxCornersTexCoords>)
        requires
            self.wf(),
        ensures
            r == self.spec_corners_uv_of(self.spec_by_texture_name(name@)),
    {
        match self.by_texture_name(name) {
            Some(bounding_box) => corners_of_uv(bounding_box, self.origin, self.width, self.height),
            None => None,
        }
    }

    /// The record of the atlas that its metadata entry stores: its origin
    /// and, for each texture index, the texture's name and pixel bounding box.
    pub fn coordinate_charts(&self) -> (r: TextureAtlas2DSerialization)
        ensures
            r.origin == self.spec_origin(),
            r.coordinate_charts.len() == self.spec_texture_count(),
            forall|i: int|
                0 <= i < r.coordinate_charts.len() ==> (#[trigger] r.coordinate_charts@[i]).0 == i
                    && r.coordinate_charts@[i].1.name@ == self.spec_texture_name(i)
                    && r.coordinate_charts@[i].1.bounding_box == self.spec_texture_box(i),
    {
        let mut coordinate_charts: Vec<(usize, TextureAtlas2DSerializationEntry)> = Vec::new();
        let mut i: usize = 0;
        while i < self.textures.len()
            invariant
                i <= self.textures.len(),
                coordinate_charts.len() == i,
                forall|j: int|
                    0 <= j < i ==> (#[trigger] coordinate_charts@[j]).0 == j
                        && coordinate_charts@[j].1.name@ == self.spec_texture_name(j)
                        && coordinate_charts@[j].1.bounding_box == self.spec_texture_box(j),
            decreases self.textures.len() - i,
        {
            let entry = TextureAtlas2DSerializationEntry::new(
                self.textures[i].name.clone(),
                self.textures[i].bounding_box,
            );
            coordinate_charts.push((i, entry));
            i += 1;
        }
        TextureAtlas2DSerialization::new(self.origin, coordinate_charts)
    }

    /// The image of the atlas.
    pub fn image(&self) -> (r: &TextureImage2D)
        ensures
            r == self.data,
    {
        &self.data
    }
}

/// The name and pixel bounding box of one texture as the metadata entry of an
/// atlas page stores them.
#[derive(Clone, Debug)]
pub struct TextureAtlas2DSerializationEntry {
    pub name: String,
    pub bounding_box: BoundingBoxPixelCoords,
}

impl TextureAtlas2DSerializationEntry {
    pub fn new(name: String, bounding_box: BoundingBoxPixelCoords) -> (r: TextureAtlas2DSerializationEntry)
        ensures
            r.name@ == name@,
            r.bounding_box == bounding_box,
    {
        TextureAtlas2DSerializationEntry { name: name, bounding_box: bounding_box }
    }
}

/// The metadata of an atlas page: its origin and its textures keyed by index.
#[derive(Clone, Debug)]
pub struct TextureAtlas2DSerialization {
    pub origin: Origin,
    pub coordinate_charts: Vec<(usize, TextureAtlas2DSerializationEntry)>,
}

/// The textures that a metadata record describes, as the atlas is built from them.
pub open spec fn spec_chart_entries(charts: Seq<(usize, TextureAtlas2DSerializationEntry)>) -> Seq<
    TextureEntry,
> {
    charts.map_values(
        |c: (usize, TextureAtlas2DSerializationEntry)| (c.0, c.1.name, c.1.bounding_box),
    )
}

impl TextureAtlas2DSerialization {
    pub fn new(origin: Origin, coordinate_charts: Vec<(usize, TextureAtlas2DSerializationEntry)>) -> (r:
        TextureAtlas2DSerialization)
        ensures
            r.origin == origin,
            r.coordinate_charts@ == coordinate_charts@,
    {
        TextureAtlas2DSerialization { origin: origin, coordinate_charts: coordinate_charts }
    }

    /// The textures the record describes, each with its index, name and
    /// pixel bounding box.
    pub fn entries(&self) -> (r: Vec<TextureEntry>)
        ensures
            r@ == spec_chart_entries(self.coordinate_charts@),
    {
        let mut entries: Vec<TextureEntry> = Vec::new();
        let mut k: usize = 0;
        while k < self.coordinate_charts.len()
            invariant
                k <= self.coordinate_charts.len(),
                entries@.len() == k,
                forall|j: int|
                    0 <= j < k ==> (#[trigger] entries@[j]).0 == self.coordinate_charts@[j].0
                        && entries@[j].1 == self.coordinate_charts@[j].1.name && entries@[j].2
                        == self.coordinate_charts@[j].1.bounding_box,
            decreases self.coordinate_charts.len() - k,
        {
            let chart = &self.coordinate_charts[k];
            entries.push((chart.0, chart.1.name.clone(), chart.1.bounding_box));
            k += 1;
        }
        assert(entries@ =~= spec_chart_entries(self.coordinate_charts@));
        entries
    }
}

/// The texture coordinates of texture `i` are its pixel coordinates over the
/// atlas dimensions: `by_index_uv(i)` holds the quantities of `by_index(i)`,
/// each over the width or the height of the atlas.
pub proof fn lemma_uv_is_pixels_over_dimensions(atlas: TextureAtlas2D, i: int)
    requires
        0 <= i < atlas.spec_texture_count(),
        atlas.width > 0,
        atlas.height > 0,
    ensures
        ({
            let p = atlas.spec_by_index(i)->0;
            let t = atlas.spec_uv(atlas.spec_by_index(i))->0;
            &&& atlas.spec_by_index(i) is Some
            &&& atlas.spec_uv(atlas.spec_by_index(i)) is Some
            &&& t.top_left.u.numerator == p.top_left.u && t.top_left.u.denominator == atlas.width
            &&& t.top_left.v.numerator == p.top_left.v && t.top_left.v.denominator == atlas.height
            &&& t.width.numerator == p.width && t.width.denominator == atlas.width
            &&& t.height.numerator == p.height && t.height.denominator == atlas.height
        }),
{
}

/// The name of a texture and its index lead to the same texture:
/// `by_texture_name(n)` and `by_index(i)` agree when `n` is the name of
/// texture `i`, and the name of texture `i` has index `i`.
pub proof fn lemma_name_and_index_agree(atlas: TextureAtlas2D, i: int)
    requires
        atlas.wf(),
        0 <= i < atlas.spec_texture_count(),
    ensures
        atlas.spec_index_of(atlas.spec_texture_name(i)) == Some(i),
        atlas.spec_by_texture_name(atlas.spec_texture_name(i)) == atlas.spec_by_index(i),
{
    let name = atlas.spec_texture_name(i);
    assert(0 <= i < atlas.spec_texture_count() && atlas.spec_texture_name(i) == name);
    let j = choose|j: int| 0 <= j < atlas.spec_texture_count() && atlas.spec_texture_name(j) == name;
    assert(atlas.textures@[j].name@ == atlas.textures@[i].name@);
}

} // verus!
