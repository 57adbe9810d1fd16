use vstd::prelude::*;
use crate::error::{ErrorKind, TextureAtlas2DError};

verus! {

/// `a` comes strictly before `b` in lexicographic order of code points.
pub open spec fn spec_lex_lt(a: Seq<char>, b: Seq<char>) -> bool
    decreases a.len(),
{
    if a.len() == 0 {
        b.len() > 0
    } else if b.len() == 0 {
        false
    } else if a[0] != b[0] {
        (a[0] as u32) < (b[0] as u32)
    } else {
        spec_lex_lt(a.drop_first(), b.drop_first())
    }
}

proof fn lemma_lex_transitive(a: Seq<char>, b: Seq<char>, c: Seq<char>)
    requires
        spec_lex_lt(a, b),
        spec_lex_lt(b, c),
    ensures
        spec_lex_lt(a, c),
    decreases a.len(),
{
    if a.len() > 0 && b.len() > 0 && c.len() > 0 && a[0] == b[0] && b[0] == c[0] {
        lemma_lex_transitive(a.drop_first(), b.drop_first(), c.drop_first());
    }
}

proof fn lemma_lex_total(a: Seq<char>, b: Seq<char>)
    requires
        a != b,
    ensures
        spec_lex_lt(a, b) || spec_lex_lt(b, a),
    decreases a.len(),
{
    if a.len() > 0 && b.len() > 0 && a[0] == b[0] {
        if a.drop_first() == b.drop_first() {
            assert(a =~= seq![a[0]] + a.drop_first());
            assert(b =~= seq![b[0]] + b.drop_first());
        }
        lemma_lex_total(a.drop_first(), b.drop_first());
    } else if a.len() == 0 && b.len() == 0 {
        assert(a =~= b);
    } else if a.len() > 0 && b.len() > 0 {
        vstd::utf8::char_u32_cast(a[0], a[0] as u32);
        vstd::utf8::char_u32_cast(b[0], b[0] as u32);
        assert((a[0] as u32) != (b[0] as u32));
    }
}

/// The characters of a string, one after the other.
fn chars_of(s: &str) -> (r: Vec<char>)
    ensures
        r@ == s@,
{
    let mut out: Vec<char> = Vec::new();
    for ch in it: s.chars()
        invariant
            out@ == it.seq().subrange(0, it.index() as int),
    {
        out.push(ch);
    }
    out
}

/// Decide whether `a` comes strictly before `b` in lexicographic order.
fn lex_less(a: &str, b: &str) -> (r: bool)
    ensures
        r == spec_lex_lt(a@, b@),
{
    let x = chars_of(a);
    let y = chars_of(b);
    let mut i: usize = 0;
    assert(x@.skip(0) =~= x@);
    assert(y@.skip(0) =~= y@);
    while i < x.len() && i < y.len()
        invariant
            i <= x.len(),
            i <= y.len(),
            x@ == a@,
            y@ == b@,
            spec_lex_lt(a@, b@) == spec_lex_lt(x@.skip(i as int), y@.skip(i as int)),
        decreases x.len() - i,
    {
        let ghost xs = x@.skip(i as int);
        let ghost ys = y@.skip(i as int);
        assert(xs[0] == x@[i as int]);
        assert(ys[0] == y@[i as int]);
        if x[i] != y[i] {
            return (x[i] as u32) < (y[i] as u32);
        }
        assert(xs.drop_first() =~= x@.skip(i + 1));
        assert(ys.drop_first() =~= y@.skip(i + 1));
        i += 1;
    }
    assert(x@.skip(i as int).len() == x.len() - i);
    i < y.len()
}

/// The strings are in strictly increasing lexicographic order.
pub open spec fn spec_strictly_sorted(v: Seq<String>) -> bool {
    forall|k: int, l: int| 0 <= k < l < v.len() ==> spec_lex_lt((#[trigger] v[k])@, (#[trigger] v[l])@)
}

/// Some string of `v` reads `name`.
pub open spec fn spec_lists_name(v: Seq<String>, name: Seq<char>) -> bool {
    exists|k: int| 0 <= k < v.len() && (#[trigger] v[k])@ == name
}

/// Sort names into strictly increasing lexicographic order, keeping one of
/// each repeated name.
pub fn sort_names(names: &Vec<String>) -> (r: Vec<String>)
    ensures
        spec_strictly_sorted(r@),
        forall|name: Seq<char>| #[trigger] spec_lists_name(r@, name) <==> spec_lists_name(names@, name),
{
    let mut sorted: Vec<String> = Vec::new();
    let mut i: usize = 0;
    while i < names.len()
        invariant
            i <= names.len(),
            spec_strictly_sorted(sorted@),
            forall|name: Seq<char>|
                #[trigger] spec_lists_name(sorted@, name) <==> spec_lists_name(names@.take(i as int), name),
        decreases names.len() - i,
    {
        let x = &names[i];
        let mut p: usize = 0;
        while p < sorted.len() && lex_less(sorted[p].as_str(), x.as_str())
            invariant
                p <= sorted.len(),
                forall|q: int| 0 <= q < p ==> spec_lex_lt((#[trigger] sorted@[q])@, x@),
            decreases sorted.len() - p,
        {
            p += 1;
        }
        let ghost before = sorted@;
        if p < sorted.len() && sorted[p].eq(x) {
        } else {
            sorted.insert(p, x.clone());
            proof {
                assert forall|k: int, l: int| 0 <= k < l < sorted@.len() implies spec_lex_lt(
                    (#[trigger] sorted@[k])@,
                    (#[trigger] sorted@[l])@,
                ) by {
                    if p < before.len() {
                        assert(!spec_lex_lt(before[p as int]@, x@));
                        assert(before[p as int]@ != x@);
                        lemma_lex_total(before[p as int]@, x@);
                    }
                    if k < p && l == p {
                    } else if k < p && l > p {
                        assert(sorted@[l] == before[l - 1]);
                    } else if k == p && l > p {
                        assert(sorted@[l] == before[l - 1]);
                        if l - 1 > p {
                            assert(spec_lex_lt(before[p as int]@, before[l - 1]@));
                            lemma_lex_transitive(x@, before[p as int]@, before[l - 1]@);
                        }
                    } else if k > p {
                        assert(sorted@[k] == before[k - 1]);
                        assert(sorted@[l] == before[l - 1]);
                    }
                }
            }
        }
        proof {
            assert forall|name: Seq<char>| #[trigger]
                spec_lists_name(sorted@, name) <==> spec_lists_name(names@.take(i + 1), name) by {
                let prefix = names@.take(i as int);
                let grown = names@.take(i + 1);
                assert(grown =~= prefix.push(names@[i as int]));
                if spec_lists_name(sorted@, name) {
                    let k = choose|k: int| 0 <= k < sorted@.len() && (#[trigger] sorted@[k])@ == name;
                    if sorted@[k]@ == x@ {
                        assert(grown[i as int]@ == name);
                    } else {
                        let k0 = if k > p && sorted@.len() > before.len() { k - 1 } else { k };
                        assert(before[k0] == sorted@[k]);
                        assert(spec_lists_name(before, name));
                        let j = choose|j: int| 0 <= j < prefix.len() && (#[trigger] prefix[j])@ == name;
                        assert(grown[j] == prefix[j]);
                    }
                }
                if spec_lists_name(grown, name) {
                    let j = choose|j: int| 0 <= j < grown.len() && (#[trigger] grown[j])@ == name;
                    if j == i {
                        if sorted@.len() > before.len() {
                            assert(sorted@[p as int]@ == name);
                        } else {
                            assert(sorted@[p as int]@ == name);
                        }
                    } else {
                        assert(prefix[j] == grown[j]);
                        assert(spec_lists_name(prefix, name));
                        assert(spec_lists_name(before, name));
                        let k = choose|k: int| 0 <= k < before.len() && (#[trigger] before[k])@ == name;
                        if sorted@.len() > before.len() && k >= p {
                            assert(sorted@[k + 1] == before[k]);
                        } else {
                            assert(sorted@[k] == before[k]);
                        }
                    }
                }
            }
        }
        i += 1;
    }
    proof {
        assert(names@.take(names.len() as int) =~= names@);
    }
    sorted
}

/// `s` ends with `suffix`.
pub open spec fn spec_has_suffix(s: Seq<char>, suffix: Seq<char>) -> bool {
    s.len() >= suffix.len() && s.subrange(s.len() - suffix.len(), s.len() as int) == suffix
}

/// `s` without its last `n` characters.
pub open spec fn spec_strip(s: Seq<char>, n: nat) -> Seq<char> {
    s.subrange(0, s.len() - n)
}

/// The names that some string of `v` reads.
pub open spec fn spec_name_set(v: Seq<String>) -> Set<Seq<char>> {
    Set::new(|name: Seq<char>| spec_lists_name(v, name))
}

/// `v` lists, in strictly increasing order of their `ext` entry names, the
/// base names `b` for which `entries` holds the entry `b + ext`, and holds
/// the entry `b + other` exactly when `other_present`.
pub open spec fn spec_base_list(
    v: Seq<String>,
    entries: Set<Seq<char>>,
    ext: Seq<char>,
    other: Seq<char>,
    other_present: bool,
) -> bool {
    &&& forall|k: int|
        0 <= k < v.len() ==> entries.contains((#[trigger] v[k])@ + ext) && entries.contains(v[k]@ + other)
            == other_present
    &&& forall|b: Seq<char>|
        entries.contains(b + ext) && entries.contains(b + other) == other_present
            ==> #[trigger] spec_lists_name(v, b)
    &&& forall|k: int, l: int|
        0 <= k < l < v.len() ==> spec_lex_lt((#[trigger] v[k])@ + ext, (#[trigger] v[l])@ + ext)
}

proof fn lemma_suffix_of_join(b: Seq<char>, ext: Seq<char>)
    ensures
        spec_has_suffix(b + ext, ext),
        spec_strip(b + ext, ext.len()) == b,
{
    let e = b + ext;
    assert(e.subrange(e.len() - ext.len(), e.len() as int) =~= ext);
    assert(spec_strip(e, ext.len()) =~= b);
}

proof fn lemma_join_of_suffix(e: Seq<char>, ext: Seq<char>)
    requires
        spec_has_suffix(e, ext),
    ensures
        spec_strip(e, ext.len()) + ext == e,
{
    assert(spec_strip(e, ext.len()) + ext =~= e);
}

/// Decide whether `s` ends with `suffix`.
fn has_suffix(s: &str, suffix: &str) -> (r: bool)
    ensures
        r == spec_has_suffix(s@, suffix@),
{
    let x = chars_of(s);
    let y = chars_of(suffix);
    if x.len() < y.len() {
        return false;
    }
    let offset = x.len() - y.len();
    let mut i: usize = 0;
    while i < y.len()
        invariant
            x@ == s@,
            y@ == suffix@,
            offset == x.len() - y.len(),
            i <= y.len(),
            forall|j: int| 0 <= j < i ==> x@[offset + j] == y@[j],
        decreases y.len() - i,
    {
        if x[offset + i] != y[i] {
            assert(s@.subrange(offset as int, s@.len() as int)[i as int] != suffix@[i as int]);
            return false;
        }
        i += 1;
    }
    assert(s@.subrange(offset as int, s@.len() as int) =~= suffix@);
    true
}

/// `s` without its last `n` characters.
fn strip(s: &str, n: usize) -> (r: String)
    requires
        n <= s@.len(),
    ensures
        r@ == spec_strip(s@, n as nat),
{
    let len = s.unicode_len();
    s.substring_char(0, len - n).to_owned()
}

/// `base` followed by `ext`.
pub(crate) fn with_extension(base: &String, ext: &str) -> (r: String)
    ensures
        r@ == base@ + ext@,
{
    base.clone().concat(ext)
}

/// Decide whether some string of `v` reads `name`.
fn lists_name(v: &Vec<String>, name: &String) -> (r: bool)
    ensures
        r == spec_lists_name(v@, name@),
{
    let mut k: usize = 0;
    while k < v.len()
        invariant
            k <= v.len(),
            forall|j: int| 0 <= j < k ==> (#[trigger] v@[j])@ != name@,
        decreases v.len() - k,
    {
        if v[k].eq(name) {
            return true;
        }
        k += 1;
    }
    false
}

/// Collect, in increasing order of their `ext` entry names, the base names
/// `b` for which the entry `b + ext` is present and the entry `b + other` is
/// present exactly when `other_present`. `sorted` lists the names of `names`
/// in strictly increasing order.
fn collect_bases(
    sorted: &Vec<String>,
    names: &Vec<String>,
    ext: &str,
    other: &str,
    other_present: bool,
) -> (r: Vec<String>)
    requires
        spec_strictly_sorted(sorted@),
        forall|name: Seq<char>| #[trigger] spec_lists_name(sorted@, name) <==> spec_lists_name(names@, name),
    ensures
        spec_base_list(r@, spec_name_set(names@), ext@, other@, other_present),
{
    let mut bases: Vec<String> = Vec::new();
    let ghost mut position: Seq<int> = Seq::empty();
    let mut j: usize = 0;
    while j < sorted.len()
        invariant
            spec_strictly_sorted(sorted@),
            forall|name: Seq<char>| #[trigger] spec_lists_name(sorted@, name) <==> spec_lists_name(names@, name),
            j <= sorted.len(),
            position.len() == bases.len(),
            forall|k: int|
                0 <= k < bases.len() ==> 0 <= #[trigger] position[k] < j && sorted@[position[k]]@ == bases@[k]@
                    + ext@ && spec_lists_name(names@, bases@[k]@ + other@) == other_present,
            forall|k: int, l: int| 0 <= k < l < bases.len() ==> #[trigger] position[k] < #[trigger] position[l],
            forall|idx: int|
                0 <= idx < j && spec_has_suffix((#[trigger] sorted@[idx])@, ext@) && spec_lists_name(
                    names@,
                    spec_strip(sorted@[idx]@, ext@.len()) + other@,
                ) == other_present ==> spec_lists_name(bases@, spec_strip(sorted@[idx]@, ext@.len())),
        decreases sorted.len() - j,
    {
        let entry = &sorted[j];
        if has_suffix(entry.as_str(), ext) {
            let base = strip(entry.as_str(), ext.unicode_len());
            let counterpart = with_extension(&base, other);
            if lists_name(names, &counterpart) == other_present {
                let ghost before = bases@;
                proof {
                    lemma_join_of_suffix(entry@, ext@);
                }
                bases.push(base);
                proof {
                    position = position.push(j as int);
                    assert(bases@[before.len() as int]@ == spec_strip(sorted@[j as int]@, ext@.len()));
                    assert forall|k: int| 0 <= k < bases.len() implies 0 <= #[trigger] position[k] < j + 1
                        && sorted@[position[k]]@ == bases@[k]@ + ext@ && spec_lists_name(
                        names@,
                        bases@[k]@ + other@,
                    ) == other_present by {
                        if k < before.len() {
                            assert(bases@[k] == before[k]);
                        }
                    }
                    assert forall|idx: int|
                        0 <= idx < j + 1 && spec_has_suffix((#[trigger] sorted@[idx])@, ext@)
                            && spec_lists_name(names@, spec_strip(sorted@[idx]@, ext@.len()) + other@)
                            == other_present implies spec_lists_name(
                        bases@,
                        spec_strip(sorted@[idx]@, ext@.len()),
                    ) by {
                        if idx < j {
                            let k = choose|k: int|
                                0 <= k < before.len() && (#[trigger] before[k])@ == spec_strip(
                                    sorted@[idx]@,
                                    ext@.len(),
                                );
                            assert(bases@[k] == before[k]);
                        }
                    }
                }
            }
        }
        j += 1;
    }
    proof {
        assert forall|k: int| 0 <= k < bases.len() implies spec_lists_name(
            names@,
            (#[trigger] bases@[k])@ + ext@,
        ) && spec_lists_name(names@, bases@[k]@ + other@) == other_present by {
            assert(spec_lists_name(sorted@, sorted@[position[k]]@));
        }
        assert forall|b: Seq<char>|
            spec_lists_name(names@, b + ext@) && spec_lists_name(names@, b + other@) == other_present
                implies #[trigger] spec_lists_name(bases@, b) by {
            assert(spec_lists_name(sorted@, b + ext@));
            let idx = choose|idx: int| 0 <= idx < sorted@.len() && (#[trigger] sorted@[idx])@ == b + ext@;
            lemma_suffix_of_join(b, ext@);
        }
        assert forall|k: int, l: int| 0 <= k < l < bases.len() implies spec_lex_lt(
            (#[trigger] bases@[k])@ + ext@,
            (#[trigger] bases@[l])@ + ext@,
        ) by {
            assert(position[k] < position[l]);
            assert(spec_lex_lt(sorted@[position[k]]@, sorted@[position[l]]@));
        }
    }
    bases
}

/// The extension of the metadata entry of a page.
pub open spec fn spec_json_ext() -> Seq<char> {
    seq!['.', 'j', 's', 'o', 'n']
}

/// The extension of the image entry of a page.
pub open spec fn spec_png_ext() -> Seq<char> {
    seq!['.', 'p', 'n', 'g']
}

/// `v` lists, in increasing order of their metadata entry names, the pages
/// with both a metadata entry and an image entry among `entries`.
pub open spec fn spec_lists_pages(v: Seq<String>, entries: Set<Seq<char>>) -> bool {
    spec_base_list(v, entries, spec_json_ext(), spec_png_ext(), true)
}

/// Some base name has an entry with extension `ext` but none with `other`.
pub open spec fn spec_has_unpaired(entries: Set<Seq<char>>, ext: Seq<char>, other: Seq<char>) -> bool {
    exists|b: Seq<char>| #[trigger] entries.contains(b + ext) && !entries.contains(b + other)
}

/// `name` is the base name that has an entry with extension `ext` but none
/// with `other`, and whose `ext` entry comes first in lexicographic order
/// among all such.
pub open spec fn spec_is_first_unpaired(
    name: Seq<char>,
    entries: Set<Seq<char>>,
    ext: Seq<char>,
    other: Seq<char>,
) -> bool {
    &&& entries.contains(name + ext)
    &&& !entries.contains(name + other)
    &&& forall|b: Seq<char>|
        #[trigger] entries.contains(b + ext) && !entries.contains(b + other) && b != name ==> spec_lex_lt(
            name + ext,
            b + ext,
        )
}

proof fn lemma_first_of_base_list(
    v: Seq<String>,
    entries: Set<Seq<char>>,
    ext: Seq<char>,
    other: Seq<char>,
)
    requires
        spec_base_list(v, entries, ext, other, false),
    ensures
        v.len() > 0 <==> spec_has_unpaired(entries, ext, other),
        v.len() > 0 ==> spec_is_first_unpaired(v[0]@, entries, ext, other),
{
    if v.len() > 0 {
        assert(entries.contains(v[0]@ + ext));
        assert forall|b: Seq<char>|
            #[trigger] entries.contains(b + ext) && !entries.contains(b + other) && b != v[0]@
                implies spec_lex_lt(v[0]@ + ext, b + ext) by {
            assert(spec_lists_name(v, b));
            let k = choose|k: int| 0 <= k < v.len() && (#[trigger] v[k])@ == b;
            assert(k != 0);
        }
    }
    if spec_has_unpaired(entries, ext, other) {
        let b = choose|b: Seq<char>| #[trigger] entries.contains(b + ext) && !entries.contains(b + other);
        assert(spec_lists_name(v, b));
    }
}

/// Sort out the entry names of an atlas container by page. Returns the
/// pages that have both a metadata entry `<page>.json` and an image entry
/// `<page>.png`, the pages that have an image entry but no metadata entry,
/// and those that have a metadata entry but no image entry; each list in
/// increasing lexicographic order of the entry names its pages were found by.
pub fn extract_atlas_names(file_names: &Vec<String>) -> (r: (Vec<String>, Vec<String>, Vec<String>))
    ensures
        spec_lists_pages(r.0@, spec_name_set(file_names@)),
        spec_base_list(r.1@, spec_name_set(file_names@), spec_png_ext(), spec_json_ext(), false),
        spec_base_list(r.2@, spec_name_set(file_names@), spec_json_ext(), spec_png_ext(), false),
{
    let sorted = sort_names(file_names);
    proof {
        reveal_strlit(".json");
        reveal_strlit(".png");
        assert(".json"@ =~= spec_json_ext());
        assert(".png"@ =~= spec_png_ext());
    }
    let atlas_names = collect_bases(&sorted, file_names, ".json", ".png", true);
    let missing_coordinates = collect_bases(&sorted, file_names, ".png", ".json", false);
    let missing_images = collect_bases(&sorted, file_names, ".json", ".png", false);
    (atlas_names, missing_coordinates, missing_images)
}

/// Find the pages of an atlas container from its entry names. Every page
/// needs both its metadata entry `<page>.json` and its image entry
/// `<page>.png`. Where some page lacks its metadata entry, the error is
/// `MissingCoordinateCharts`; otherwise, where some page lacks its image
/// entry, it is `MissingImageBuffer`; each names the page whose entry comes
/// first in lexicographic order. Otherwise returns the pages, in increasing
/// lexicographic order of their metadata entry names.
pub fn discover_pages(file_names: &Vec<String>) -> (r: Result<Vec<String>, TextureAtlas2DError>)
    ensures
        ({
            let entries = spec_name_set(file_names@);
            match r {
                Ok(pages) => !spec_has_unpaired(entries, spec_png_ext(), spec_json_ext())
                    && !spec_has_unpaired(entries, spec_json_ext(), spec_png_ext())
                    && spec_lists_pages(pages@, entries),
                Err(e) => e.cause is None && if spec_has_unpaired(
                    entries,
                    spec_png_ext(),
                    spec_json_ext(),
                ) {
                    e.kind == ErrorKind::MissingCoordinateCharts && spec_is_first_unpaired(
                        e.name@,
                        entries,
                        spec_png_ext(),
                        spec_json_ext(),
                    )
                } else {
                    &&& spec_has_unpaired(entries, spec_json_ext(), spec_png_ext())
                    &&& e.kind == ErrorKind::MissingImageBuffer
                    &&& spec_is_first_unpaired(e.name@, entries, spec_json_ext(), spec_png_ext())
                },
            }
        }),
{
    let (atlas_names, missing_coordinates, missing_images) = extract_atlas_names(file_names);
    proof {
        let entries = spec_name_set(file_names@);
        lemma_first_of_base_list(missing_coordinates@, entries, spec_png_ext(), spec_json_ext());
        lemma_first_of_base_list(missing_images@, entries, spec_json_ext(), spec_png_ext());
    }
    if missing_coordinates.len() > 0 {
        let name = missing_coordinates[0].clone();
        return Err(TextureAtlas2DError::new(ErrorKind::MissingCoordinateCharts, name, None));
    }
    if missing_images.len() > 0 {
        let name = missing_images[0].clone();
        return Err(TextureAtlas2DError::new(ErrorKind::MissingImageBuffer, name, None));
    }
    Ok(atlas_names)
}

} // verus!
