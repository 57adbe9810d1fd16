use vstd::prelude::*;
use crate::atlas::TextureAtlas2D;
use crate::coords::TextureAtlas2DWarning;
use crate::discovery::spec_lists_name;

verus! {

/// A collection of texture atlas pages, each with a name. Page `i` is called
/// `page_names[i]`; where two pages share a name, the name leads to the later one.
#[derive(Clone, Debug)]
pub struct MultiTextureAtlas2D {
    /// The pages, in order.
    pub pages: Vec<TextureAtlas2D>,
    /// The name of each page, by position.
    pub page_names: Vec<String>,
}

impl MultiTextureAtlas2D {
    /// Each page has a name and each page is well formed.
    pub open spec fn wf(&self) -> bool {
        &&& self.pages.len() == self.page_names.len()
        &&& forall|i: int| 0 <= i < self.pages.len() ==> (#[trigger] self.pages@[i]).wf()
    }

    /// Page `i` is the last page called `name`.
    pub open spec fn spec_is_last_named(&self, i: int, name: Seq<char>) -> bool {
        &&& 0 <= i < self.page_names.len()
        &&& self.page_names@[i]@ == name
        &&& forall|j: int| i < j < self.page_names.len() ==> (#[trigger] self.page_names@[j])@ != name
    }

    /// The index of the page called `name`: the last page with that name.
    pub open spec fn spec_page_index_of(&self, name: Seq<char>) -> Option<int> {
        if exists|i: int| self.spec_is_last_named(i, name) {
            Some(choose|i: int| self.spec_is_last_named(i, name))
        } else {
            None
        }
    }

    /// Construct a new multi-texture atlas, page `i` called `names[i]`.
    pub fn new(pages: Vec<TextureAtlas2D>, names: Vec<String>) -> (r: MultiTextureAtlas2D)
        requires
            pages.len() == names.len(),
        ensures
            r.pages@ == pages@,
            r.page_names@ == names@,
    {
        MultiTextureAtlas2D { pages: pages, page_names: names }
    }

    /// Decide whether each page has a name and each page is well formed.
    pub fn is_well_formed(&self) -> (r: bool)
        ensures
            r == self.wf(),
    {
        if self.pages.len() != self.page_names.len() {
            return false;
        }
        let mut i: usize = 0;
        while i < self.pages.len()
            invariant
                i <= self.pages.len(),
                forall|j: int| 0 <= j < i ==> (#[trigger] self.pages@[j]).wf(),
            decreases self.pages.len() - i,
        {
            if !self.pages[i].is_well_formed() {
                return false;
            }
            i += 1;
        }
        true
    }

    /// Get all the pages in the multi-texture atlas.
    #[inline]
    pub fn pages(&self) -> (r: &[TextureAtlas2D])
        ensures
            r@ == self.pages@,
    {
        self.pages.as_slice()
    }

    /// Get a texture atlas by its name. Where pages share the name, this is
    /// the last of them.
    pub fn by_page_name(&self, name: &str) -> (r: Option<&TextureAtlas2D>)
        requires
            self.pages.len() == self.page_names.len(),
        ensures
            match self.spec_page_index_of(name@) {
                Some(i) => r is Some && *r->0 == self.pages@[i],
                None => r is None,
            },
    {
        let target = name.to_owned();
        let mut i: usize = self.page_names.len();
        while i > 0
            invariant
                self.pages.len() == self.page_names.len(),
                target@ == name@,
                i <= self.page_names.len(),
                forall|j: int| i <= j < self.page_names.len() ==> (#[trigger] self.page_names@[j])@ != name@,
            decreases i,
        {
            i -= 1;
            if self.page_names[i].eq(&target) {
                proof {
                    assert(self.spec_is_last_named(i as int, name@));
                    let k = choose|k: int| self.spec_is_last_named(k, name@);
                    if k < i {
                        assert(self.page_names@[i as int]@ == name@);
                    } else if k > i {
                        assert(self.page_names@[k]@ == name@);
                    }
                }
                return Some(&self.pages[i]);
            }
        }
        None
    }

    /// Get a texture atlas by its index.
    pub fn by_page_index(&self, index: usize) -> (r: Option<&TextureAtlas2D>)
        ensures
            index < self.pages.len() ==> r is Some && *r->0 == self.pages@[index as int],
            index >= self.pages.len() ==> r is None,
    {
        if index < self.pages.len() {
            Some(&self.pages[index])
        } else {
            None
        }
    }

    /// Get the number of pages (atlases) in the multi texture atlas.
    #[inline]
    pub fn page_count(&self) -> (r: usize)
        ensures
            r == self.pages.len(),
    {
        self.pages.len()
    }

    /// Get the names of the pages in the multi texture atlas, each once.
    pub fn page_names(&self) -> (r: Vec<String>)
        ensures
            forall|i: int|
                0 <= i < self.page_names.len() ==> spec_lists_name(r@, (#[trigger] self.page_names@[i])@),
            forall|k: int| 0 <= k < r.len() ==> spec_lists_name(self.page_names@, (#[trigger] r@[k])@),
            forall|k: int, l: int|
                0 <= k < r.len() && 0 <= l < r.len() && k != l ==> (#[trigger] r@[k])@ != (#[trigger] r@[l])@,
    {
        let n = self.page_names.len();
        let mut names: Vec<String> = Vec::new();
        let mut i: usize = 0;
        while i < n
            invariant
                n == self.page_names.len(),
                i <= n,
                forall|i2: int|
                    0 <= i2 < i ==> spec_lists_name(names@, (#[trigger] self.page_names@[i2])@),
                forall|k: int|
                    0 <= k < names.len() ==> spec_lists_name(self.page_names@, (#[trigger] names@[k])@),
                forall|k: int, l: int|
                    0 <= k < names.len() && 0 <= l < names.len() && k != l ==> (#[trigger] names@[k])@
                        != (#[trigger] names@[l])@,
            decreases n - i,
        {
            let mut seen = false;
            let mut k: usize = 0;
            while k < names.len()
                invariant
                    n == self.page_names.len(),
                    i < n,
                    k <= names.len(),
                    seen ==> exists|k2: int|
                        0 <= k2 < names.len() && (#[trigger] names@[k2])@ == self.page_names@[i as int]@,
                    !seen ==> forall|k2: int|
                        0 <= k2 < k ==> (#[trigger] names@[k2])@ != self.page_names@[i as int]@,
                decreases names.len() - k,
            {
                if names[k].eq(&self.page_names[i]) {
                    seen = true;
                }
                k += 1;
            }
            if !seen {
                let ghost before = names@;
                names.push(self.page_names[i].clone());
                proof {
                    assert forall|i2: int| 0 <= i2 < i + 1 implies spec_lists_name(
                        names@,
                        (#[trigger] self.page_names@[i2])@,
                    ) by {
                        if i2 == i {
                            assert(names@[before.len() as int]@ == self.page_names@[i2]@);
                        } else {
                            let k2 = choose|k2: int|
                                0 <= k2 < before.len() && (#[trigger] before[k2])@
                                    == self.page_names@[i2]@;
                            assert(names@[k2] == before[k2]);
                        }
                    }
                    assert forall|k2: int| 0 <= k2 < names.len() implies spec_lists_name(
                        self.page_names@,
                        (#[trigger] names@[k2])@,
                    ) by {
                        if k2 == before.len() {
                            assert(self.page_names@[i as int]@ == names@[k2]@);
                        } else {
                            assert(names@[k2] == before[k2]);
                        }
                    }
                }
            }
            i += 1;
        }
        names
    }
}

/// A texture atlas page together with the warnings generated while decoding it.
#[derive(Clone, Debug)]
pub struct TextureAtlas2DResult {
    /// The texture atlas we decoded.
    pub atlas: TextureAtlas2D,
    /// Any warnings generated in the decoding process.
    pub warnings: TextureAtlas2DWarning,
}

impl TextureAtlas2DResult {
    /// Check that no warnings were generated during the loading of a texture atlas.
    pub fn no_warnings_generated(&self) -> (r: bool)
        ensures
            r == (self.warnings == TextureAtlas2DWarning::NoWarnings),
    {
        self.warnings == TextureAtlas2DWarning::NoWarnings
    }
}

/// A multi-texture atlas together with the warnings generated while decoding
/// it, the warnings of page `i` at position `i`.
#[derive(Clone, Debug)]
pub struct MultiTextureAtlas2DResult {
    pub multi_atlas: MultiTextureAtlas2D,
    pub warnings: Vec<TextureAtlas2DWarning>,
}

} // verus!
