//! Reduced color palettes of decoded artwork.
//!
//! Each pixel is quantized to a 12-bit color bucket; buckets are ranked by
//! how many pixels fall into them — the dominance order, ties broken by the
//! smaller bucket — and the top buckets become the palette, most dominant
//! first. Everything here is verified; the contract pins the palette down
//! to the unique ranking of the image's buckets.

use vstd::multiset::Multiset;
use vstd::prelude::*;

verus! {

broadcast use vstd::seq_lib::group_to_multiset_ensures;

/// How many colors a palette holds at most.
pub const PALETTE_SIZE: usize = 4;

/// One palette color, 8 bits a channel.
#[derive(Clone, Copy, PartialEq, Eq, Structural, Debug)]
pub struct Color {
    pub r: u8,
    pub g: u8,
    pub b: u8,
}

/// A decoded image as plain values: RGBA, 8 bits a channel, row-major.
pub struct Bitmap {
    pub width: u32,
    pub height: u32,
    pub pixels: Vec<u8>,
}

/// The 12-bit bucket of one pixel: 4 bits a channel.
pub open spec fn spec_quant(r: u8, g: u8, b: u8) -> u32 {
    ((r / 16) * 256 + (g / 16) * 16 + (b / 16)) as u32
}

/// The buckets of every complete RGBA pixel group, in image order.
pub open spec fn spec_quant_keys(pixels: Seq<u8>) -> Seq<u32> {
    Seq::new(
        (pixels.len() / 4) as nat,
        |i: int| spec_quant(pixels[4 * i], pixels[4 * i + 1], pixels[4 * i + 2]),
    )
}

/// The representative color of a bucket: each 4-bit channel spread back
/// over the full range.
pub open spec fn spec_color_of_key(k: u32) -> Color {
    (Color { r: ((k / 256) * 17) as u8, g: (((k / 16) % 16) * 17) as u8, b: ((k % 16) * 17) as u8 })
}

/// The bucket a palette color stands for.
pub open spec fn spec_palette_key(c: Color) -> u32 {
    ((c.r / 17) * 256 + (c.g / 17) * 16 + (c.b / 17)) as u32
}

/// The dominance order on buckets of an image: more pixels first, ties to
/// the smaller bucket. A strict total order on distinct buckets.
pub open spec fn spec_key_better(ms: Multiset<u32>, a: u32, b: u32) -> bool {
    ms.count(a) > ms.count(b) || (ms.count(a) == ms.count(b) && a < b)
}

proof fn lemma_key_roundtrip(k: u32)
    requires
        k < 4096,
    ensures
        spec_palette_key(spec_color_of_key(k)) == k,
{
    let hi = k / 256;
    let mid = (k / 16) % 16;
    let lo = k % 16;
    assert(hi <= 15 && mid <= 15 && lo <= 15);
    assert((hi * 17) / 17 == hi) by (nonlinear_arith)
        requires
            hi <= 15,
    ;
    assert((mid * 17) / 17 == mid) by (nonlinear_arith)
        requires
            mid <= 15,
    ;
    assert((lo * 17) / 17 == lo) by (nonlinear_arith)
        requires
            lo <= 15,
    ;
    assert(k == hi * 256 + mid * 16 + lo);
}

fn quant_keys(pixels: &Vec<u8>) -> (r: Vec<u32>)
    ensures
        r@ == spec_quant_keys(pixels@),
{
    let npix = pixels.len() / 4;
    let mut out: Vec<u32> = Vec::new();
    let mut i: usize = 0;
    while i < npix
        invariant
            npix == pixels@.len() / 4,
            pixels@.len() <= usize::MAX,
            4 * npix <= pixels@.len(),
            i <= npix,
            out@.len() == i,
            forall|j: int| 0 <= j < i ==> out@[j] == spec_quant_keys(pixels@)[j],
        decreases npix - i,
    {
        proof {
            assert(4 * i + 3 < 4 * npix);
        }
        let r = pixels[4 * i];
        let g = pixels[4 * i + 1];
        let b = pixels[4 * i + 2];
        out.push(((r / 16) as u32) * 256 + ((g / 16) as u32) * 16 + ((b / 16) as u32));
        i = i + 1;
    }
    proof {
        assert(out@ =~= spec_quant_keys(pixels@));
    }
    out
}

/// One bucket and how many pixels fell into it.
#[derive(Clone, Copy)]
struct ColorCount {
    color: u32,
    count: usize,
}

spec fn spec_better(a: ColorCount, b: ColorCount) -> bool {
    a.count > b.count || (a.count == b.count && a.color < b.color)
}

fn find_color(r: &Vec<ColorCount>, c: u32) -> (idx: Option<usize>)
    ensures
        (match idx {
            Some(k) => k < r@.len() && r@[k as int].color == c,
            None => forall|j: int| 0 <= j < r@.len() ==> r@[j].color != c,
        }),
{
    let n = r.len();
    let mut k: usize = 0;
    while k < n
        invariant
            n == r@.len(),
            k <= n,
            forall|j: int| 0 <= j < k ==> r@[j].color != c,
        decreases n - k,
    {
        if r[k].color == c {
            return Some(k);
        }
        k = k + 1;
    }
    None
}

#[verifier::loop_isolation(false)]
fn histogram(keys: &Vec<u32>) -> (r: Vec<ColorCount>)
    ensures
        forall|k1: int, k2: int| 0 <= k1 < k2 < r@.len() ==> r@[k1].color != r@[k2].color,
        forall|k: int|
            #![trigger r@[k]]
            0 <= k < r@.len() ==> {
                &&& r@[k].count == keys@.to_multiset().count(r@[k].color)
                &&& r@[k].count >= 1
                &&& keys@.contains(r@[k].color)
            },
        forall|c: u32|
            keys@.contains(c) ==> exists|k: int| 0 <= k < r@.len() && r@[k].color == c,
{
    let mut r: Vec<ColorCount> = Vec::new();
    let n = keys.len();
    let mut i: usize = 0;
    while i < n
        invariant
            i <= n,
            forall|k1: int, k2: int| 0 <= k1 < k2 < r@.len() ==> r@[k1].color != r@[k2].color,
            forall|k: int|
                #![trigger r@[k]]
                0 <= k < r@.len() ==> {
                    &&& r@[k].count == keys@.take(i as int).to_multiset().count(r@[k].color)
                    &&& r@[k].count >= 1
                    &&& r@[k].count <= i
                    &&& keys@.contains(r@[k].color)
                },
            forall|c: u32|
                keys@.take(i as int).contains(c) ==> exists|k: int|
                    0 <= k < r@.len() && r@[k].color == c,
        decreases n - i,
    {
        let c = keys[i];
        proof {
            assert(keys@.take(i as int).push(c) =~= keys@.take(i + 1));
            assert(keys@[i as int] == c);
        }
        match find_color(&r, c) {
            Some(k) => {
                let e = r[k];
                let ghost old_r = r@;
                r.set(k, ColorCount { color: c, count: e.count + 1 });
                proof {
                    assert forall|c2: u32| #[trigger] keys@.take(i + 1).contains(c2) implies exists|
                        k2: int,
                    | 0 <= k2 < r@.len() && r@[k2].color == c2 by {
                        if c2 == c {
                            assert(r@[k as int].color == c2);
                        } else {
                            assert(keys@.take(i as int).contains(c2));
                            let k0 = choose|k0: int|
                                0 <= k0 < old_r.len() && old_r[k0].color == c2;
                            assert(k0 != k);
                            assert(r@[k0].color == c2);
                        }
                    }
                }
            },
            None => {
                proof {
                    assert(!keys@.take(i as int).contains(c));
                    assert(keys@.take(i as int).to_multiset().count(c) == 0);
                }
                let ghost old_r = r@;
                r.push(ColorCount { color: c, count: 1 });
                proof {
                    assert forall|c2: u32| #[trigger] keys@.take(i + 1).contains(c2) implies exists|k2: int|
                        0 <= k2 < r@.len() && r@[k2].color == c2 by {
                        if c2 == c {
                            assert(r@[r@.len() - 1].color == c2);
                        } else {
                            assert(keys@.take(i as int).contains(c2));
                            let k0 = choose|k0: int| 0 <= k0 < old_r.len() && old_r[k0].color == c2;
                            assert(r@[k0].color == c2);
                        }
                    }
                }
            },
        }
        i = i + 1;
    }
    proof {
        assert(keys@.take(n as int) =~= keys@);
    }
    r
}

#[verifier::loop_isolation(false)]
fn find_best(pool: &Vec<ColorCount>) -> (m: usize)
    requires
        pool@.len() > 0,
        forall|k1: int, k2: int| 0 <= k1 < k2 < pool@.len() ==> pool@[k1].color != pool@[k2].color,
    ensures
        m < pool@.len(),
        forall|j: int| 0 <= j < pool@.len() && j != m ==> spec_better(pool@[m as int], pool@[j]),
{
    let mut m: usize = 0;
    let mut k: usize = 1;
    while k < pool.len()
        invariant
            m < k,
            k <= pool@.len(),
            forall|j: int| 0 <= j < k && j != m ==> spec_better(pool@[m as int], pool@[j]),
        decreases pool@.len() - k,
    {
        if pool[k].count > pool[m].count || (pool[k].count == pool[m].count && pool[k].color
            < pool[m].color) {
            proof {
                assert forall|j: int| 0 <= j < k && j != k implies spec_better(
                    pool@[k as int],
                    pool@[j],
                ) by {
                    if j != m {
                        assert(spec_better(pool@[m as int], pool@[j]));
                    }
                }
            }
            m = k;
        } else {
            proof {
                if m != k {
                    assert(pool@[k as int].color != pool@[m as int].color);
                }
                assert(spec_better(pool@[m as int], pool@[k as int]));
            }
        }
        k = k + 1;
    }
    m
}

#[verifier::loop_isolation(false)]
fn select_top(pool: Vec<ColorCount>, limit: usize) -> (out: Vec<ColorCount>)
    requires
        forall|k1: int, k2: int| 0 <= k1 < k2 < pool@.len() ==> pool@[k1].color != pool@[k2].color,
    ensures
        out@.len() == (if limit <= pool@.len() {
            limit as int
        } else {
            pool@.len() as int
        }),
        forall|k1: int, k2: int| 0 <= k1 < k2 < out@.len() ==> spec_better(out@[k1], out@[k2]),
        forall|k1: int, k2: int| 0 <= k1 < k2 < out@.len() ==> out@[k1].color != out@[k2].color,
        forall|k: int| 0 <= k < out@.len() ==> pool@.contains(out@[k]),
        forall|j: int|
            0 <= j < pool@.len() ==> out@.contains(pool@[j]) || (out@.len() == limit && forall|
                k: int,
            |
                0 <= k < out@.len() ==> spec_better(out@[k], pool@[j])),
{
    let ghost pool0 = pool@;
    let mut pool = pool;
    let mut out: Vec<ColorCount> = Vec::new();
    while pool.len() > 0 && out.len() < limit
        invariant
            out@.len() + pool@.len() == pool0.len(),
            out@.len() <= limit,
            forall|k1: int, k2: int|
                0 <= k1 < k2 < pool@.len() ==> pool@[k1].color != pool@[k2].color,
            forall|k1: int, k2: int| 0 <= k1 < k2 < out@.len() ==> spec_better(out@[k1], out@[k2]),
            forall|k1: int, k2: int| 0 <= k1 < k2 < out@.len() ==> out@[k1].color != out@[k2].color,
            forall|k: int, j: int|
                0 <= k < out@.len() && 0 <= j < pool@.len() ==> spec_better(out@[k], pool@[j])
                    && out@[k].color != pool@[j].color,
            forall|k: int| 0 <= k < out@.len() ==> pool0.contains(out@[k]),
            forall|j: int| 0 <= j < pool@.len() ==> pool0.contains(pool@[j]),
            forall|j: int|
                0 <= j < pool0.len() ==> out@.contains(pool0[j]) || pool@.contains(pool0[j]),
        decreases pool@.len(),
    {
        let m = find_best(&pool);
        let ghost old_pool = pool@;
        let ghost old_out = out@;
        let e = pool[m];
        proof {
            assert(pool@[m as int] == e);
            assert forall|k: int| 0 <= k < out@.len() implies (out@[k].color != e.color
                && spec_better(out@[k], e)) by {
                let pm = pool@[m as int];
                assert(spec_better(out@[k], pm) && out@[k].color != pm.color);
            }
        }
        pool.remove(m);
        out.push(e);
        proof {
            assert(old_pool[m as int] == e);
            assert(pool0.contains(e)) by {
                assert(old_pool.contains(e));
                let k0 = choose|k0: int| 0 <= k0 < old_pool.len() && old_pool[k0] == e;
                assert(pool0.contains(old_pool[k0]));
            }
            assert forall|j: int| 0 <= j < pool@.len() implies (pool0.contains(pool@[j])
                && pool@[j].color != e.color && spec_better(e, pool@[j])) by {
                if j < m {
                    assert(pool@[j] == old_pool[j]);
                } else {
                    assert(pool@[j] == old_pool[j + 1]);
                }
            }
            assert forall|k1: int, k2: int| 0 <= k1 < k2 < out@.len() implies (out@[k1].color
                != out@[k2].color && spec_better(out@[k1], out@[k2])) by {
                if k2 == out@.len() - 1 {
                    assert(out@[k1] == old_out[k1]);
                    assert(out@[k2] == e);
                } else {
                    assert(out@[k1] == old_out[k1]);
                    assert(out@[k2] == old_out[k2]);
                }
            }
            assert forall|j: int| 0 <= j < pool0.len() implies out@.contains(pool0[j])
                || pool@.contains(pool0[j]) by {
                if old_out.contains(pool0[j]) {
                    let k0 = choose|k0: int| 0 <= k0 < old_out.len() && old_out[k0] == pool0[j];
                    assert(out@[k0] == pool0[j]);
                } else if old_pool.contains(pool0[j]) {
                    let k0 = choose|k0: int| 0 <= k0 < old_pool.len() && old_pool[k0] == pool0[j];
                    if k0 == m {
                        assert(out@[out@.len() - 1] == pool0[j]);
                    } else if k0 < m {
                        assert(pool@[k0] == pool0[j]);
                    } else {
                        assert(pool@[k0 - 1] == pool0[j]);
                    }
                }
            }
        }
    }
    proof {
        assert forall|j: int| 0 <= j < pool0.len() implies out@.contains(pool0[j]) || (out@.len()
            == limit && forall|k: int| 0 <= k < out@.len() ==> spec_better(out@[k], pool0[j])) by {
            if !out@.contains(pool0[j]) {
                let i0 = choose|i0: int| 0 <= i0 < pool@.len() && pool@[i0] == pool0[j];
                assert(pool@[i0] == pool0[j]);
                assert(pool@.len() > 0);
            }
        }
    }
    out
}

/// The palette of a decoded image: the most dominant color buckets of the
/// image, most dominant first, at most `PALETTE_SIZE` of them. Every entry
/// is the representative color of a bucket that occurs in the image; the
/// entries are strictly ordered by dominance; and a bucket that occurs but
/// is absent was only left out because the palette is full of strictly
/// more dominant buckets.
/// What it means for `pal` to be the palette of an image with pixel bytes
/// `pixels`: every entry is the representative color of a bucket that
/// occurs in the image, entries are strictly ordered by dominance, and a
/// bucket that occurs but is absent was only left out because the palette
/// is full of strictly more dominant buckets. These clauses determine the
/// palette uniquely.
pub open spec fn spec_palette_ok(pal: Seq<Color>, pixels: Seq<u8>) -> bool {
    &&& pal.len() <= PALETTE_SIZE
    &&& forall|k: int|
        #![trigger pal[k]]
        0 <= k < pal.len() ==> {
            &&& spec_quant_keys(pixels).contains(spec_palette_key(pal[k]))
            &&& pal[k] == spec_color_of_key(spec_palette_key(pal[k]))
        }
    &&& forall|k1: int, k2: int|
        0 <= k1 < k2 < pal.len() ==> spec_key_better(
            spec_quant_keys(pixels).to_multiset(),
            spec_palette_key(pal[k1]),
            spec_palette_key(pal[k2]),
        )
    &&& forall|c: u32|
        spec_quant_keys(pixels).contains(c) ==> (exists|k: int|
            0 <= k < pal.len() && spec_palette_key(pal[k]) == c) || (pal.len() == PALETTE_SIZE
            && forall|k: int|
            0 <= k < pal.len() ==> spec_key_better(
                spec_quant_keys(pixels).to_multiset(),
                spec_palette_key(pal[k]),
                c,
            ))
}

/// An image with at least one complete pixel has a nonempty palette:
/// its first bucket either appears in the palette or the palette is full.
pub proof fn lemma_palette_nonempty(pal: Seq<Color>, pixels: Seq<u8>)
    requires
        spec_palette_ok(pal, pixels),
        pixels.len() >= 4,
    ensures
        pal.len() >= 1,
{
    let ks = spec_quant_keys(pixels);
    assert(ks.len() >= 1);
    let c = ks[0];
    assert(ks.contains(c));
    if !(exists|k: int| 0 <= k < pal.len() && spec_palette_key(pal[k]) == c) {
        assert(pal.len() == PALETTE_SIZE);
    }
}

pub fn compute_palette(bitmap: &Bitmap) -> (r: Vec<Color>)
    ensures
        spec_palette_ok(r@, bitmap.pixels@),
{
    let keys = quant_keys(&bitmap.pixels);
    let hist = histogram(&keys);
    let sel = select_top(hist, PALETTE_SIZE);
    let ghost ks = spec_quant_keys(bitmap.pixels@);
    let ghost ms = ks.to_multiset();
    proof {
        assert(keys@ == ks);
        assert forall|i: int| 0 <= i < ks.len() implies ks[i] < 4096 by {
            assert(ks[i] == spec_quant(
                bitmap.pixels@[4 * i],
                bitmap.pixels@[4 * i + 1],
                bitmap.pixels@[4 * i + 2],
            ));
        }
        assert forall|k: int| 0 <= k < sel@.len() implies (#[trigger] sel@[k].count == ms.count(
            sel@[k].color,
        ) && sel@[k].count >= 1 && ks.contains(sel@[k].color) && sel@[k].color < 4096) by {
            let h = choose|h: int| 0 <= h < hist@.len() && hist@[h] == sel@[k];
            assert(hist@[h].count == ms.count(hist@[h].color));
            let j0 = choose|j0: int| 0 <= j0 < ks.len() && ks[j0] == sel@[k].color;
            assert(ks[j0] < 4096);
        }
    }
    let mut r: Vec<Color> = Vec::new();
    let n = sel.len();
    let mut i: usize = 0;
    while i < n
        invariant
            n == sel@.len(),
            i <= n,
            r@.len() == i,
            forall|k: int| 0 <= k < sel@.len() ==> #[trigger] sel@[k].color < 4096,
            forall|k: int|
                #![trigger r@[k]]
                0 <= k < i ==> {
                    &&& r@[k] == spec_color_of_key(sel@[k].color)
                    &&& spec_palette_key(r@[k]) == sel@[k].color
                },
        decreases n - i,
    {
        let c = sel[i].color;
        proof {
            lemma_key_roundtrip(c);
        }
        let hi = (c / 256) as u8;
        let mid = ((c / 16) % 16) as u8;
        let lo = (c % 16) as u8;
        r.push(Color { r: hi * 17, g: mid * 17, b: lo * 17 });
        i = i + 1;
    }
    proof {
        assert forall|k1: int, k2: int| 0 <= k1 < k2 < r@.len() implies spec_key_better(
            ms,
            spec_palette_key(r@[k1]),
            spec_palette_key(r@[k2]),
        ) by {
            assert(spec_better(sel@[k1], sel@[k2]));
            assert(sel@[k1].count == ms.count(sel@[k1].color));
            assert(sel@[k2].count == ms.count(sel@[k2].color));
        }
        assert forall|c: u32| ks.contains(c) implies (exists|k: int|
            0 <= k < r@.len() && spec_palette_key(r@[k]) == c) || (r@.len() == PALETTE_SIZE
            && forall|k: int|
            0 <= k < r@.len() ==> spec_key_better(ms, spec_palette_key(r@[k]), c)) by {
            let hk = choose|hk: int| 0 <= hk < hist@.len() && hist@[hk].color == c;
            let he = hist@[hk];
            assert(he.count == ms.count(c));
            if sel@.contains(he) {
                let k0 = choose|k0: int| 0 <= k0 < sel@.len() && sel@[k0] == he;
                assert(spec_palette_key(r@[k0]) == c);
            } else {
                assert(sel@.len() == PALETTE_SIZE);
                assert forall|k: int| 0 <= k < r@.len() implies spec_key_better(
                    ms,
                    spec_palette_key(r@[k]),
                    c,
                ) by {
                    assert(spec_better(sel@[k], he));
                    assert(sel@[k].count == ms.count(sel@[k].color));
                }
            }
        }
    }
    r
}

} // verus!
