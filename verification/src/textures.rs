//! Texture bookkeeping: numbering the texture names that blocks use, and
//! composing the block texture atlas from the individual textures.

use vstd::prelude::*;
use vstd::string::*;

verus! {

/// Whether two texts are equal, character by character.
pub fn str_eq(a: &str, b: &str) -> (r: bool)
    ensures
        r == (a@ == b@),
{
    let n = a.unicode_len();
    if n != b.unicode_len() {
        return false;
    }
    let mut i: usize = 0;
    while i < n
        invariant
            n == a@.len(),
            n == b@.len(),
            i <= n,
            forall|j: int| 0 <= j < i ==> a@[j] == b@[j],
        decreases n - i,
    {
        if a.get_char(i) != b.get_char(i) {
            return false;
        }
        i = i + 1;
    }
    assert(a@ =~= b@);
    true
}

/// The first position of `search` in `names`, or `-1` where it does not occur.
pub open spec fn first_index(names: Seq<Seq<char>>, search: Seq<char>) -> int
    decreases names.len(),
{
    if names.len() == 0 {
        -1
    } else {
        let rest = first_index(names.drop_last(), search);
        if rest >= 0 {
            rest
        } else if names.last() == search {
            names.len() - 1
        } else {
            -1
        }
    }
}

/// The texts of a list of string slices.
pub open spec fn texts(names: Seq<&str>) -> Seq<Seq<char>> {
    names.map_values(|s: &str| s@)
}

proof fn lemma_first_index(names: Seq<Seq<char>>, search: Seq<char>)
    ensures
        -1 <= first_index(names, search) < names.len(),
        first_index(names, search) >= 0 ==> names[first_index(names, search)] == search,
        first_index(names, search) >= 0 ==> forall|j: int|
            0 <= j < first_index(names, search) ==> names[j] != search,
        first_index(names, search) < 0 <==> !names.contains(search),
    decreases names.len(),
{
    if names.len() > 0 {
        lemma_first_index(names.drop_last(), search);
        assert forall|j: int| 0 <= j < names.len() - 1 implies names[j] == names.drop_last()[j] by {}
        if names.contains(search) && first_index(names.drop_last(), search) < 0 {
            let k = choose|k: int| 0 <= k < names.len() && names[k] == search;
            if k < names.len() - 1 {
                assert(names.drop_last()[k] == search);
            }
        }
    }
}

proof fn lemma_first_index_unique(names: Seq<Seq<char>>, search: Seq<char>, k: int)
    requires
        0 <= k < names.len(),
        names[k] == search,
        forall|j: int| 0 <= j < k ==> names[j] != search,
    ensures
        first_index(names, search) == k,
{
    lemma_first_index(names, search);
    let f = first_index(names, search);
    assert(names.contains(search));
}

/// The position of the first name in `array` equal to `search`, as a `u32`.
pub fn index_of(array: &Vec<&str>, search: &str) -> (r: Option<u32>)
    ensures
        r == (if first_index(texts(array@), search@) < 0 {
            None
        } else {
            Some(first_index(texts(array@), search@) as u32)
        }),
{
    let ghost t = texts(array@);
    proof { lemma_first_index(t, search@); }
    let mut i: usize = 0;
    while i < array.len()
        invariant
            t == texts(array@),
            i <= array.len(),
            forall|j: int| 0 <= j < i ==> t[j] != search@,
        decreases array.len() - i,
    {
        if str_eq(array[i], search) {
            proof { lemma_first_index_unique(t, search@, i as int); }
            return Some(i as u32);
        }
        i = i + 1;
    }
    proof {
        if t.contains(search@) {
            let k = choose|k: int| 0 <= k < t.len() && t[k] == search@;
            assert(false);
        }
    }
    None
}

/// All six texture names of every block, in order, block after block.
pub open spec fn flat_names(raw: Seq<[&str; 6]>) -> Seq<Seq<char>>
    decreases raw.len(),
{
    if raw.len() == 0 {
        Seq::empty()
    } else {
        flat_names(raw.drop_last()) + texts(raw.last()@)
    }
}

/// The distinct texts of `s`, in the order of their first occurrence.
pub open spec fn distinct_in_order(s: Seq<Seq<char>>) -> Seq<Seq<char>>
    decreases s.len(),
{
    if s.len() == 0 {
        s
    } else {
        let rest = distinct_in_order(s.drop_last());
        if rest.contains(s.last()) {
            rest
        } else {
            rest.push(s.last())
        }
    }
}

/// `id` is the number of `name` among `names`: the position of its first occurrence.
pub open spec fn numbered(names: Seq<Seq<char>>, name: Seq<char>, id: u32) -> bool {
    0 <= first_index(names, name) && id == first_index(names, name) as u32
}

/// Every face of the first `n` blocks carries the number of its texture name.
pub open spec fn all_numbered(names: Seq<Seq<char>>, raw: Seq<[&str; 6]>, ids: Seq<[u32; 6]>, n: int) -> bool {
    forall|c: int, m: int| #![trigger ids[c][m]]
        0 <= c < n && 0 <= m < 6 ==> numbered(names, raw[c][m]@, ids[c][m])
}

proof fn lemma_first_index_push(s: Seq<Seq<char>>, x: Seq<char>, y: Seq<char>)
    requires
        first_index(s, y) >= 0,
    ensures
        first_index(s.push(x), y) == first_index(s, y),
{
    assert(s.push(x).drop_last() =~= s);
}

/// Numbers the textures that blocks use. Every distinct name gets the number of
/// its first occurrence (names are taken block after block, six per block), and
/// each block gets the numbers of its six names.
///
/// Returns the list of distinct names, in the order of their numbers, and for
/// every block the numbers of its six faces.
pub fn assign_texture_ids<'a>(raw_names: &Vec<[&'a str; 6]>) -> (r: (Vec<&'a str>, Vec<[u32; 6]>))
    ensures
        texts(r.0@) == distinct_in_order(flat_names(raw_names@)),
        texts(r.0@).no_duplicates(),
        r.1.len() == raw_names.len(),
        all_numbered(texts(r.0@), raw_names@, r.1@, raw_names.len() as int),
        6 * raw_names.len() <= u32::MAX ==> forall|b: int, k: int|
            #![trigger r.1@[b][k]]
            0 <= b < raw_names.len() && 0 <= k < 6 ==> r.1@[b][k] < r.0.len() && r.0@[r.1@[b][k] as int]@
                == raw_names@[b][k]@,
{
    let mut names: Vec<&'a str> = Vec::new();
    let mut ids: Vec<[u32; 6]> = Vec::new();
    let mut b: usize = 0;
    assert(texts(names@) =~= Seq::<Seq<char>>::empty());
    assert(raw_names@.take(0) =~= Seq::<[&str; 6]>::empty());
    while b < raw_names.len()
        invariant
            b <= raw_names.len(),
            names.len() <= 6 * b,
            ids.len() == b,
            texts(names@) == distinct_in_order(flat_names(raw_names@.take(b as int))),
            texts(names@).no_duplicates(),
            all_numbered(texts(names@), raw_names@, ids@, b as int),
        decreases raw_names.len() - b,
    {
        let block = raw_names[b];
        let mut slot: Vec<u32> = Vec::new();
        let mut k: usize = 0;
        assert(texts(block@).take(0) =~= Seq::<Seq<char>>::empty());
        assert(flat_names(raw_names@.take(b as int)) + texts(block@).take(0)
            =~= flat_names(raw_names@.take(b as int)));
        while k < 6
            invariant
                0 <= b < raw_names.len(),
                names.len() <= 6 * b + k,
                ids.len() == b,
                block == raw_names@[b as int],
                k <= 6,
                slot.len() == k,
                texts(names@) == distinct_in_order(
                    flat_names(raw_names@.take(b as int)) + texts(block@).take(k as int),
                ),
                texts(names@).no_duplicates(),
                forall|m: int| #![trigger slot@[m]] 0 <= m < k ==> numbered(texts(names@), block@[m]@, slot@[m]),
                all_numbered(texts(names@), raw_names@, ids@, b as int),
            decreases 6 - k,
        {
            let ghost before = texts(names@);
            let ghost old_names = names@;
            let ghost old_slot = slot@;
            let name = block[k];
            proof {
                lemma_first_index(before, name@);
            }
            let prefix = Ghost(flat_names(raw_names@.take(b as int)) + texts(block@).take(k as int));
            let next = Ghost(flat_names(raw_names@.take(b as int)) + texts(block@).take(k + 1));
            assert(next@.drop_last() =~= prefix@);
            assert(next@.last() == name@);
            match index_of(&names, name) {
                Some(j) => {
                    slot.push(j);
                    assert(texts(names@) =~= distinct_in_order(next@));
                    assert forall|m: int| #![trigger slot@[m]] 0 <= m < k + 1 implies numbered(texts(names@), block@[m]@, slot@[m]) by {
                        if m < k {
                            assert(slot@[m] == old_slot[m]);
                        }
                    }
                },
                None => {
                    let j = names.len() as u32;
                    names.push(name);
                    slot.push(j);
                    assert(texts(names@) =~= before.push(name@));
                    assert(texts(names@) == distinct_in_order(next@));
                    assert forall|x: int, y: int|
                        0 <= x < texts(names@).len() && 0 <= y < texts(names@).len() && x != y
                        implies texts(names@)[x] != texts(names@)[y] by {
                        if x == before.len() {
                            assert(before[y] == texts(names@)[y]);
                        } else if y == before.len() {
                            assert(before[x] == texts(names@)[x]);
                        }
                    }
                    proof {
                        lemma_first_index_unique(texts(names@), name@, before.len() as int);
                    }
                    assert forall|m: int| #![trigger slot@[m]] 0 <= m < k + 1 implies numbered(texts(names@), block@[m]@, slot@[m]) by {
                        if m < k {
                            assert(slot@[m] == old_slot[m]);
                            lemma_first_index_push(before, name@, block@[m]@);
                        }
                    }
                    assert forall|c: int, mm: int|
                        #![trigger ids@[c][mm]]
                        0 <= c < b && 0 <= mm < 6 implies numbered(texts(names@), raw_names@[c][mm]@, ids@[c][mm]) by {
                        assert(numbered(before, raw_names@[c][mm]@, ids@[c][mm]));
                        lemma_first_index_push(before, name@, raw_names@[c][mm]@);
                    }
                },
            }
            k = k + 1;
        }
        let row = [slot[0], slot[1], slot[2], slot[3], slot[4], slot[5]];
        let ghost old_ids = ids@;
        ids.push(row);
        proof {
            let tb1 = raw_names@.take(b + 1);
            assert(tb1.drop_last() =~= raw_names@.take(b as int));
            assert(tb1.last() == block);
            assert(texts(block@).take(6) =~= texts(block@));
            assert(flat_names(tb1) == flat_names(raw_names@.take(b as int)) + texts(block@));
            assert forall|c: int, m: int|
                #![trigger ids@[c][m]]
                0 <= c < b + 1 && 0 <= m < 6 implies numbered(texts(names@), raw_names@[c][m]@, ids@[c][m]) by {
                if c < b {
                    assert(ids@[c] == old_ids[c]);
                    assert(numbered(texts(names@), raw_names@[c][m]@, old_ids[c][m]));
                } else {
                    assert(ids@[c] == row);
                    assert(row[m] == slot@[m]);
                    assert(numbered(texts(names@), block@[m]@, slot@[m]));
                }
            }
        }
        b = b + 1;
    }
    assert(raw_names@.take(raw_names.len() as int) =~= raw_names@);
    let r = (names, ids);
    proof {
        if 6 * raw_names.len() <= u32::MAX {
            assert forall|c: int, m: int|
                #![trigger r.1@[c][m]]
                0 <= c < raw_names.len() && 0 <= m < 6 implies r.1@[c][m] < r.0.len() && r.0@[r.1@[c][m] as int]@
                    == raw_names@[c][m]@ by {
                assert(numbered(texts(r.0@), raw_names@[c][m]@, r.1@[c][m]));
                lemma_first_index(texts(r.0@), raw_names@[c][m]@);
                assert(texts(r.0@).len() == r.0.len());
            }
        }
    }
    r
}


/// Law: the number a block face gets is what `index_of` finds for its name in
/// the list of names.
pub proof fn law_ids_are_found_names(names: Seq<&str>, raw: Seq<[&str; 6]>, ids: Seq<[u32; 6]>, b: int, k: int)
    requires
        all_numbered(texts(names), raw, ids, raw.len() as int),
        0 <= b < raw.len(),
        0 <= k < 6,
    ensures
        first_index(texts(names), raw[b][k]@) >= 0,
        ids[b][k] == first_index(texts(names), raw[b][k]@) as u32,
{
    assert(numbered(texts(names), raw[b][k]@, ids[b][k]));
}

/// Which part of an atlas texture to take: a quarter, a half or all of it. The
/// atlas coordinates it selects are floating point and are worked out outside
/// the library.
pub enum TextureSubdivisionMethod {
    TopLeft,
    TopRight,
    BottomLeft,
    BottomRight,
    Top,
    Left,
    Right,
    Bottom,
    Full,
}

/// Side, in pixels, of every block texture in the atlas.
pub const TEXTURE_SIZE: u32 = 16;

/// Number of textures on each row of the atlas.
pub const ATLAS_WIDTH: u32 = 4;

/// The distance between neighbouring `f32` values around `n`, for
/// `0 <= n < 2^32`: one below `2^24`, doubling at every power of two above.
pub open spec fn f32_spacing(n: int) -> int {
    if n < 0x100_0000 {
        1
    } else if n < 0x200_0000 {
        2
    } else if n < 0x400_0000 {
        4
    } else if n < 0x800_0000 {
        8
    } else if n < 0x1000_0000 {
        16
    } else if n < 0x2000_0000 {
        32
    } else if n < 0x4000_0000 {
        64
    } else if n < 0x8000_0000 {
        128
    } else {
        256
    }
}

/// The value `n as f32` holds, for `0 <= n < 2^32`: the nearest multiple of the
/// spacing of `f32` values around `n`, a tie going to the even multiple.
pub open spec fn f32_nearest(n: int) -> int {
    let s = f32_spacing(n);
    let q = n / s;
    let r = n % s;
    if 2 * r < s || (2 * r == s && q % 2 == 0) {
        q * s
    } else {
        (q + 1) * s
    }
}

/// The whole number that converting `n` to `f32` gives.
fn nearest_f32(n: u64) -> (v: u64)
    requires
        n < 0x1_0000_0000,
    ensures
        v == f32_nearest(n as int),
        n < 0x100_0000 ==> v == n,
        v <= n + f32_spacing(n as int) / 2,
{
    let s: u64 = if n < 0x100_0000 {
        1
    } else if n < 0x200_0000 {
        2
    } else if n < 0x400_0000 {
        4
    } else if n < 0x800_0000 {
        8
    } else if n < 0x1000_0000 {
        16
    } else if n < 0x2000_0000 {
        32
    } else if n < 0x4000_0000 {
        64
    } else if n < 0x8000_0000 {
        128
    } else {
        256
    };
    let q = n / s;
    let r = n % s;
    proof {
        vstd::arithmetic::div_mod::lemma_fundamental_div_mod(n as int, s as int);
        assert((q + 1) * s == q * s + s) by (nonlinear_arith);
    }
    if 2 * r < s || (2 * r == s && q % 2 == 0) {
        q * s
    } else {
        (q + 1) * s
    }
}

/// The number of atlas rows needed for `texture_count` textures: the count, as
/// an `f32`, divided by the atlas width and rounded up. Up to `2^24` textures
/// this is the exact count divided by the width, rounded up; above, the count
/// is first rounded to the nearest `f32`.
pub fn atlas_height(texture_count: usize) -> (h: u32)
    requires
        texture_count <= 0x4000_0000,
    ensures
        h == ceil_div(f32_nearest(texture_count as int), ATLAS_WIDTH as int),
        texture_count <= 0x100_0000 ==> h == ceil_div(texture_count as int, ATLAS_WIDTH as int),
{
    let rounded = nearest_f32(texture_count as u64);
    proof {
        if texture_count == 0x100_0000 {
            assert(f32_nearest(0x100_0000) == 0x100_0000);
        }
    }
    ((rounded + 3) / 4) as u32
}

/// The index of the texture that covers atlas pixel `(x, y)`, worked out as the
/// atlas does it in `f32`: the column `x` (below the atlas width of 64 pixels,
/// and so exact) and the row `y` (rounded to the nearest `f32`) are divided by
/// the texture size and rounded down.
pub open spec fn texture_number(x: int, y: int) -> int {
    x / TEXTURE_SIZE as int + (f32_nearest(y) / TEXTURE_SIZE as int) * ATLAS_WIDTH as int
}

/// `a / b` rounded up.
pub open spec fn ceil_div(a: int, b: int) -> int {
    (a + b - 1) / b
}

/// Whether the missing-texture checkerboard is purple at `(x, y)`: the pattern
/// is made of squares of half the texture size, starting purple at the corner.
pub open spec fn checker_purple(x: int, y: int, texture_size: int) -> bool {
    texture_size > 0 && (ceil_div(2 * (x + 1), texture_size) + ceil_div(2 * (y + 1), texture_size)) % 2 == 0
}

/// Purple, for the missing-texture pattern.
pub open spec fn purple() -> [u8; 4] {
    [255u8, 0u8, 255u8, 255u8]
}

/// Black, for the missing-texture pattern.
pub open spec fn black() -> [u8; 4] {
    [0u8, 0u8, 0u8, 255u8]
}

/// The colour of atlas pixels that no texture covers.
pub open spec fn uncovered() -> [u8; 4] {
    [255u8, 255u8, 0u8, 1u8]
}

/// The pixel at `(x, y)` of the purple and black checkerboard drawn in place of
/// a texture that could not be loaded.
pub fn invalid_texture(x: u32, y: u32, texture_size: u32) -> (px: [u8; 4])
    ensures
        px == (if checker_purple(x as int, y as int, texture_size as int) { purple() } else { black() }),
{
    if texture_size == 0 {
        return [0, 0, 0, 255];
    }
    let size = texture_size as u64;
    let relative_x = (2 * (x as u64 + 1) + size - 1) / size;
    let relative_y = (2 * (y as u64 + 1) + size - 1) / size;
    if (relative_x + relative_y) % 2 == 0 {
        [255, 0, 255, 255]
    } else {
        [0, 0, 0, 255]
    }
}

/// A texture as plain pixels, row after row.
pub struct TextureImage {
    pub width: u32,
    pub height: u32,
    pub pixels: Vec<[u8; 4]>,
}

impl TextureImage {
    /// The pixel buffer holds exactly `width * height` pixels.
    pub open spec fn wf(&self) -> bool {
        self.pixels.len() == self.width as int * self.height as int
    }

    pub open spec fn pixel(&self, x: int, y: int) -> [u8; 4] {
        self.pixels@[y * self.width as int + x]
    }

    /// The pixel in column `x` of row `y`.
    pub fn get_pixel(&self, x: u32, y: u32) -> (px: [u8; 4])
        requires
            self.wf(),
            x < self.width,
            y < self.height,
        ensures
            px == self.pixel(x as int, y as int),
    {
        proof {
            assert(y as int * self.width as int + x < self.width as int * self.height as int) by (nonlinear_arith)
                requires
                    x < self.width,
                    y < self.height,
            ;
        }
        self.pixels[y as usize * self.width as usize + x as usize]
    }
}

/// The colour of atlas pixel `(x, y)`: the matching pixel of the texture that
/// covers it, the checkerboard where that texture is missing, and yellow where
/// no texture covers it.
pub open spec fn atlas_pixel(images: Seq<Option<TextureImage>>, x: int, y: int) -> [u8; 4] {
    let n = texture_number(x, y);
    if n < images.len() {
        match images[n] {
            Some(img) => img.pixel(x % TEXTURE_SIZE as int, y % TEXTURE_SIZE as int),
            None => if checker_purple(x % TEXTURE_SIZE as int, y % TEXTURE_SIZE as int, TEXTURE_SIZE as int) {
                purple()
            } else {
                black()
            },
        }
    } else {
        uncovered()
    }
}

/// Every loaded texture is well formed and at least one texture size wide and high.
pub open spec fn textures_fit(images: Seq<Option<TextureImage>>) -> bool {
    forall|i: int| #![trigger images[i]]
        0 <= i < images.len() && images[i] is Some ==> {
            let img = images[i]->0;
            &&& img.wf()
            &&& img.width >= TEXTURE_SIZE
            &&& img.height >= TEXTURE_SIZE
        }
}

/// Composes the atlas from the textures, `ATLAS_WIDTH` textures to a row. The
/// result holds the atlas pixels row after row; the atlas is
/// `TEXTURE_SIZE * ATLAS_WIDTH` pixels wide and `TEXTURE_SIZE * atlas_height(n)`
/// high for `n` textures.
pub fn compose_atlas(images: &Vec<Option<TextureImage>>) -> (atlas: Vec<[u8; 4]>)
    requires
        images.len() <= 0x00FF_FFF0,
        textures_fit(images@),
    ensures
        atlas.len() == (TEXTURE_SIZE * ATLAS_WIDTH) as int * (TEXTURE_SIZE as int * ((images.len() + 3) / 4)),
        forall|p: int| #![trigger atlas[p]]
            0 <= p < atlas.len() ==> atlas[p] == atlas_pixel(
                images@,
                p % (TEXTURE_SIZE * ATLAS_WIDTH) as int,
                p / (TEXTURE_SIZE * ATLAS_WIDTH) as int,
            ),
{
    let width: u32 = TEXTURE_SIZE * ATLAS_WIDTH;
    let height: u32 = TEXTURE_SIZE * atlas_height(images.len());
    let mut atlas: Vec<[u8; 4]> = Vec::new();
    let mut y: u32 = 0;
    while y < height
        invariant
            width == 64,
            height as int == 16 * ((images.len() + 3) / 4),
            images.len() <= 0x00FF_FFF0,
            textures_fit(images@),
            y <= height,
            atlas.len() == y as int * 64,
            forall|p: int| #![trigger atlas[p]]
                0 <= p < atlas.len() ==> atlas[p] == atlas_pixel(images@, p % 64, p / 64),
        decreases height - y,
    {
        let mut x: u32 = 0;
        while x < width
            invariant
                width == 64,
                height as int == 16 * ((images.len() + 3) / 4),
                images.len() <= 0x00FF_FFF0,
                textures_fit(images@),
                y < height,
                x <= width,
                atlas.len() == y as int * 64 + x,
                forall|p: int| #![trigger atlas[p]]
                    0 <= p < atlas.len() ==> atlas[p] == atlas_pixel(images@, p % 64, p / 64),
            decreases width - x,
        {
            let row = nearest_f32(y as u64);
            let n = ((x / TEXTURE_SIZE) as u64 + (row / TEXTURE_SIZE as u64) * ATLAS_WIDTH as u64) as usize;
            let tex_x = x % TEXTURE_SIZE;
            let tex_y = y % TEXTURE_SIZE;
            let px = if n < images.len() {
                match &images[n] {
                    Some(img) => img.get_pixel(tex_x, tex_y),
                    None => invalid_texture(tex_x, tex_y, TEXTURE_SIZE),
                }
            } else {
                [255, 255, 0, 1]
            };
            let ghost p = atlas.len() as int;
            atlas.push(px);
            proof {
                assert(p % 64 == x as int && p / 64 == y as int) by (nonlinear_arith)
                    requires
                        p == y as int * 64 + x,
                        x < 64,
                ;
            }
            x = x + 1;
        }
        y = y + 1;
    }
    atlas
}

/// Law: texture `i` fills its cell of the atlas: column `i % ATLAS_WIDTH`, row
/// `i / ATLAS_WIDTH`, each `TEXTURE_SIZE` pixels square. Its pixel `(tx, ty)`
/// lands at `(TEXTURE_SIZE * column + tx, TEXTURE_SIZE * row + ty)`. This holds
/// for the first `2^22` textures, whose pixel rows lie below `2^24`; further down
/// the atlas the row is rounded to an `f32` before it is divided, and the last
/// row of a texture can be taken from the texture below it.
pub proof fn law_texture_fills_its_cell(images: Seq<Option<TextureImage>>, i: int, tx: int, ty: int)
    requires
        0 <= i < images.len(),
        i < 0x40_0000,
        0 <= tx < TEXTURE_SIZE,
        0 <= ty < TEXTURE_SIZE,
    ensures
        ({
            let x = TEXTURE_SIZE * (i % ATLAS_WIDTH as int) + tx;
            let y = TEXTURE_SIZE * (i / ATLAS_WIDTH as int) + ty;
            atlas_pixel(images, x, y) == match images[i] {
                Some(img) => img.pixel(tx, ty),
                None => if checker_purple(tx, ty, TEXTURE_SIZE as int) { purple() } else { black() },
            }
        }),
{
    let col = i % 4;
    let row = i / 4;
    let x = 16 * col + tx;
    let y = 16 * row + ty;
    vstd::arithmetic::div_mod::lemma_fundamental_div_mod_converse(x, 16, col, tx);
    vstd::arithmetic::div_mod::lemma_fundamental_div_mod_converse(y, 16, row, ty);
    assert(col + row * 4 == i) by {
        vstd::arithmetic::div_mod::lemma_fundamental_div_mod(i, 4);
    }
    assert(f32_nearest(y) == y);
    assert(texture_number(x, y) == i);
}

} // verus!
