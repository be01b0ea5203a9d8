//! The tally of an image: its distinct colours with the number of pixels of
//! each, and the distribution of those pixel counts over bins.
use vstd::prelude::*;

use std::collections::HashMap;

verus! {

broadcast use vstd::std_specs::hash::group_hash_axioms;

/// A colour of 8 bits per channel: red, green, blue.
pub type Rgb8 = (u8, u8, u8);

/// The key under which a colour is looked up: `0xRRGGBB`.
pub open spec fn rgb_key(c: Rgb8) -> u32 {
    (c.0 as int * 65536 + c.1 as int * 256 + c.2 as int) as u32
}

/// The `i`-th pixel of a buffer of packed RGB bytes.
pub open spec fn pixel_at(raw: Seq<u8>, i: int) -> Rgb8 {
    (raw[3 * i], raw[3 * i + 1], raw[3 * i + 2])
}

/// The pixels of a buffer of packed RGB bytes, three bytes per pixel.
pub open spec fn pixels_of(raw: Seq<u8>) -> Seq<Rgb8> {
    Seq::new((raw.len() / 3) as nat, |i: int| pixel_at(raw, i))
}

/// The number of pixels of colour `c` in `s`.
pub open spec fn count_of(s: Seq<Rgb8>, c: Rgb8) -> nat
    decreases s.len(),
{
    if s.len() == 0 {
        0
    } else {
        count_of(s.drop_last(), c) + if s.last() == c {
            1nat
        } else {
            0nat
        }
    }
}

/// The sum of the first `n` counts of `s`.
pub open spec fn prefix_sum(s: Seq<u128>, n: int) -> int
    decreases n,
{
    if n <= 0 {
        0
    } else {
        prefix_sum(s, n - 1) + s[n - 1]
    }
}

/// The sum of a sequence of counts.
pub open spec fn sum_counts(s: Seq<u128>) -> int {
    prefix_sum(s, s.len() as int)
}

/// The distinct colours of `pixels`, in the order of their first pixel.
pub open spec fn first_seen_colors(pixels: Seq<Rgb8>) -> Seq<Rgb8>
    decreases pixels.len(),
{
    if pixels.len() == 0 {
        Seq::empty()
    } else {
        let seen = first_seen_colors(pixels.drop_last());
        if seen.contains(pixels.last()) {
            seen
        } else {
            seen.push(pixels.last())
        }
    }
}

/// `colors` and `counts` tally `pixels`: the colours are distinct, each comes
/// with the number of its pixels, which is positive, every colour that
/// occurs is listed, and the counts add up to the number of pixels.
pub open spec fn is_tally_of(colors: Seq<Rgb8>, counts: Seq<u128>, pixels: Seq<Rgb8>) -> bool {
    &&& colors.len() == counts.len()
    &&& forall|i: int, j: int|
        0 <= i < j < colors.len() ==> #[trigger] colors[i] != #[trigger] colors[j]
    &&& forall|i: int|
        0 <= i < colors.len() ==> #[trigger] counts[i] == count_of(pixels, colors[i]) && counts[i]
            > 0
    &&& forall|c: Rgb8|
        #[trigger] count_of(pixels, c) > 0 ==> exists|i: int|
            0 <= i < colors.len() && #[trigger] colors[i] == c
    &&& sum_counts(counts) == pixels.len()
}

/// Distinct colours have distinct keys.
pub proof fn lemma_rgb_key_injective(a: Rgb8, b: Rgb8)
    requires
        rgb_key(a) == rgb_key(b),
    ensures
        a == b,
{
}

proof fn lemma_count_push(s: Seq<Rgb8>, x: Rgb8, c: Rgb8)
    ensures
        count_of(s.push(x), c) == count_of(s, c) + if x == c {
            1nat
        } else {
            0nat
        },
{
    assert(s.push(x).drop_last() =~= s);
}

proof fn lemma_count_le_len(s: Seq<Rgb8>, c: Rgb8)
    ensures
        count_of(s, c) <= s.len(),
    decreases s.len(),
{
    if s.len() > 0 {
        lemma_count_le_len(s.drop_last(), c);
    }
}

/// Prefix sums only look at the counts they add.
pub proof fn lemma_prefix_sum_agree(a: Seq<u128>, b: Seq<u128>, n: int)
    requires
        0 <= n <= a.len(),
        n <= b.len(),
        forall|i: int| 0 <= i < n ==> a[i] == b[i],
    ensures
        prefix_sum(a, n) == prefix_sum(b, n),
    decreases n,
{
    if n > 0 {
        lemma_prefix_sum_agree(a, b, n - 1);
    }
}

/// Prefix sums never decrease and stay below the whole sum.
pub proof fn lemma_prefix_sum_monotone(s: Seq<u128>, m: int, n: int)
    requires
        0 <= m <= n <= s.len(),
    ensures
        0 <= prefix_sum(s, m) <= prefix_sum(s, n),
    decreases n,
{
    if m < n {
        lemma_prefix_sum_monotone(s, m, n - 1);
    } else if n > 0 {
        lemma_prefix_sum_monotone(s, n - 1, n - 1);
    }
}

/// A single count is at most the sum of the counts.
pub proof fn lemma_count_le_sum(s: Seq<u128>, j: int)
    requires
        0 <= j < s.len(),
    ensures
        s[j] <= sum_counts(s),
{
    lemma_prefix_sum_monotone(s, j, j);
    lemma_prefix_sum_monotone(s, j + 1, s.len() as int);
}

proof fn lemma_sum_push(s: Seq<u128>, v: u128)
    ensures
        sum_counts(s.push(v)) == sum_counts(s) + v,
{
    lemma_prefix_sum_agree(s.push(v), s, s.len() as int);
}

proof fn lemma_prefix_sum_update(s: Seq<u128>, j: int, v: u128, n: int)
    requires
        0 <= j < s.len(),
        0 <= n <= s.len(),
    ensures
        prefix_sum(s.update(j, v), n) == if n > j {
            prefix_sum(s, n) - s[j] + v
        } else {
            prefix_sum(s, n)
        },
    decreases n,
{
    if n > 0 {
        lemma_prefix_sum_update(s, j, v, n - 1);
    }
}

proof fn lemma_sum_update(s: Seq<u128>, j: int, v: u128)
    requires
        0 <= j < s.len(),
    ensures
        sum_counts(s.update(j, v)) == sum_counts(s) - s[j] + v,
{
    lemma_prefix_sum_update(s, j, v, s.len() as int);
}

/// The key of a colour (see [`rgb_key`]).
pub(crate) fn rgb_key_of(c: Rgb8) -> (r: u32)
    ensures
        r == rgb_key(c),
{
    (c.0 as u32) * 65536 + (c.1 as u32) * 256 + (c.2 as u32)
}

/// The distinct colours of an image, in the order of their first pixel, with
/// the number of pixels of each.
pub struct ColorTally {
    colors: Vec<Rgb8>,
    counts: Vec<u128>,
    pixels: Ghost<Seq<Rgb8>>,
}

impl ColorTally {
    /// The distinct colours, in the order of their first pixel.
    pub closed spec fn spec_colors(&self) -> Seq<Rgb8> {
        self.colors@
    }

    /// The pixel count of each colour of [`ColorTally::spec_colors`].
    pub closed spec fn spec_counts(&self) -> Seq<u128> {
        self.counts@
    }

    /// The pixels that were tallied.
    pub closed spec fn spec_pixels(&self) -> Seq<Rgb8> {
        self.pixels@
    }

    /// The tally is the tally of its pixels, and their number fits a `usize`.
    pub open spec fn wf(&self) -> bool {
        &&& is_tally_of(self.spec_colors(), self.spec_counts(), self.spec_pixels())
        &&& self.spec_colors() == first_seen_colors(self.spec_pixels())
        &&& self.spec_pixels().len() <= usize::MAX
    }

    /// Tallies the pixels of a buffer of packed RGB bytes (three bytes per
    /// pixel, as an `RgbImage` stores them).
    pub fn from_rgb_bytes(raw: &[u8]) -> (r: ColorTally)
        requires
            raw@.len() % 3 == 0,
        ensures
            r.wf(),
            r.spec_pixels() == pixels_of(raw@),
    {
        let n = raw.len() / 3;
        let ghost pixels = pixels_of(raw@);
        let mut colors: Vec<Rgb8> = Vec::new();
        let mut counts: Vec<u128> = Vec::new();
        let mut index: HashMap<u32, usize> = HashMap::new();
        let mut i: usize = 0;
        assert(raw@.len() == 3 * n) by (nonlinear_arith)
            requires
                n == raw@.len() / 3,
                raw@.len() % 3 == 0,
        ;
        assert(pixels.take(0) =~= Seq::<Rgb8>::empty());
        while i < n
            invariant
                n == raw@.len() / 3,
                raw@.len() == 3 * n,
                raw@.len() <= usize::MAX,
                pixels == pixels_of(raw@),
                i <= n,
                is_tally_of(colors@, counts@, pixels.take(i as int)),
                colors@ == first_seen_colors(pixels.take(i as int)),
                forall|k: u32|
                    #[trigger] index@.contains_key(k) ==> index@[k] < colors@.len() && rgb_key(
                        colors@[index@[k] as int],
                    ) == k,
                forall|j: int|
                    0 <= j < colors@.len() ==> #[trigger] index@.contains_key(rgb_key(colors@[j]))
                        && index@[rgb_key(colors@[j])] == j,
            decreases n - i,
        {
            assert(3 * i + 2 < raw@.len());
            let p: Rgb8 = (raw[3 * i], raw[3 * i + 1], raw[3 * i + 2]);
            let ghost prev = pixels.take(i as int);
            assert(pixels.take(i + 1) =~= prev.push(p));
            assert(p == pixels[i as int]);
            let key = rgb_key_of(p);
            let ghost old_colors = colors@;
            let ghost mut pos: int = 0;
            match index.get(&key) {
                Some(j_ref) => {
                    let j = *j_ref;
                    proof {
                        pos = j as int;
                        lemma_rgb_key_injective(colors@[j as int], p);
                        lemma_count_le_len(prev, p);
                        assert(colors@.contains(p));
                    }
                    let c = counts[j];
                    let ghost old_counts = counts@;
                    counts.set(j, c + 1);
                    proof {
                        lemma_sum_update(old_counts, j as int, (c + 1) as u128);
                    }
                },
                None => {
                    proof {
                        if count_of(prev, p) > 0 {
                            let k = choose|k: int| 0 <= k < colors@.len() && #[trigger] colors@[k] == p;
                            assert(index@.contains_key(rgb_key(colors@[k])));
                        }
                        if colors@.contains(p) {
                            let k = choose|k: int| 0 <= k < colors@.len() && colors@[k] == p;
                            assert(index@.contains_key(rgb_key(colors@[k])));
                        }
                        lemma_sum_push(counts@, 1);
                        pos = colors@.len() as int;
                    }
                    index.insert(key, colors.len());
                    colors.push(p);
                    counts.push(1);
                },
            }
            proof {
                let cur = pixels.take(i + 1);
                assert(cur.drop_last() =~= prev);
                assert forall|c: Rgb8| true implies count_of(cur, c) == count_of(prev, c) + if p
                    == c {
                    1nat
                } else {
                    0nat
                } by {
                    lemma_count_push(prev, p, c);
                }
                assert(colors@[pos] == p);
                assert forall|c: Rgb8| #[trigger] count_of(cur, c) > 0 implies exists|a: int|
                    0 <= a < colors@.len() && #[trigger] colors@[a] == c by {
                    if c != p {
                        let a = choose|a: int|
                            0 <= a < old_colors.len() && #[trigger] old_colors[a] == c;
                        assert(colors@[a] == c);
                    }
                }
            }
            i = i + 1;
        }
        assert(pixels.take(n as int) =~= pixels);
        ColorTally { colors, counts, pixels: Ghost(pixels) }
    }

    /// The number of distinct colours.
    pub fn len(&self) -> (r: usize)
        ensures
            r == self.spec_colors().len(),
    {
        self.colors.len()
    }

    /// The `i`-th distinct colour.
    pub fn color(&self, i: usize) -> (r: Rgb8)
        requires
            i < self.spec_colors().len(),
        ensures
            r == self.spec_colors()[i as int],
    {
        self.colors[i]
    }

    /// The number of pixels of the `i`-th distinct colour.
    pub fn count(&self, i: usize) -> (r: u128)
        requires
            self.wf(),
            i < self.spec_colors().len(),
        ensures
            r == self.spec_counts()[i as int],
    {
        self.counts[i]
    }
}

/// The pixels of the first `n` tallied colours whose chosen bin is `k`.
pub open spec fn bin_total(counts: Seq<u128>, choices: Seq<Option<usize>>, k: usize, n: int) -> int
    decreases n,
{
    if n <= 0 {
        0
    } else {
        bin_total(counts, choices, k, n - 1) + if choices[n - 1] == Some(k) {
            counts[n - 1] as int
        } else {
            0
        }
    }
}

/// The pixels of the first `n` tallied colours that have a chosen bin.
pub open spec fn chosen_total(counts: Seq<u128>, choices: Seq<Option<usize>>, n: int) -> int
    decreases n,
{
    if n <= 0 {
        0
    } else {
        chosen_total(counts, choices, n - 1) + if choices[n - 1] is Some {
            counts[n - 1] as int
        } else {
            0
        }
    }
}

proof fn lemma_chosen_le_prefix(counts: Seq<u128>, choices: Seq<Option<usize>>, n: int)
    requires
        0 <= n <= counts.len(),
        n <= choices.len(),
    ensures
        0 <= chosen_total(counts, choices, n) <= prefix_sum(counts, n),
    decreases n,
{
    if n > 0 {
        lemma_chosen_le_prefix(counts, choices, n - 1);
    }
}

/// Distributes the pixels of a tally over `bin_count` bins: `choices[i]` is
/// the bin of the `i`-th tallied colour, or `None` when that colour is left
/// out (it did not pass the filter, or no bin holds its value).
///
/// Returns the pixel count of each bin and the number of pixels placed in a
/// bin. Every placed pixel lands in exactly one bin, so the bin counts add up
/// to that number, which is at most the number of pixels of the image.
pub fn bin_pixel_counts(tally: &ColorTally, choices: &[Option<usize>], bin_count: usize) -> (r: (
    Vec<u128>,
    u128,
))
    requires
        tally.wf(),
        choices@.len() == tally.spec_colors().len(),
        forall|i: int|
            0 <= i < choices@.len() && #[trigger] choices@[i] is Some ==> choices@[i]->0
                < bin_count,
    ensures
        r.0@.len() == bin_count,
        forall|k: int|
            0 <= k < bin_count ==> #[trigger] r.0@[k] == bin_total(
                tally.spec_counts(),
                choices@,
                k as usize,
                choices@.len() as int,
            ),
        r.1 == chosen_total(tally.spec_counts(), choices@, choices@.len() as int),
        sum_counts(r.0@) == r.1,
        r.1 <= tally.spec_pixels().len(),
{
    let ghost counts = tally.spec_counts();
    let mut bins: Vec<u128> = Vec::new();
    let mut z: usize = 0;
    while z < bin_count
        invariant
            z <= bin_count,
            bins@.len() == z,
            forall|k: int| 0 <= k < z ==> #[trigger] bins@[k] == 0,
            sum_counts(bins@) == 0,
        decreases bin_count - z,
    {
        proof {
            lemma_sum_push(bins@, 0);
        }
        bins.push(0);
        z = z + 1;
    }
    let n = choices.len();
    let mut total: u128 = 0;
    let mut i: usize = 0;
    while i < n
        invariant
            tally.wf(),
            counts == tally.spec_counts(),
            n == choices@.len(),
            n == counts.len(),
            i <= n,
            forall|j: int|
                0 <= j < choices@.len() && #[trigger] choices@[j] is Some ==> choices@[j]->0
                    < bin_count,
            bins@.len() == bin_count,
            forall|k: int|
                0 <= k < bin_count ==> #[trigger] bins@[k] == bin_total(
                    counts,
                    choices@,
                    k as usize,
                    i as int,
                ),
            total == chosen_total(counts, choices@, i as int),
            sum_counts(bins@) == total,
        decreases n - i,
    {
        let c = tally.count(i);
        proof {
            lemma_chosen_le_prefix(counts, choices@, i as int);
            lemma_prefix_sum_monotone(counts, i + 1, n as int);
        }
        match choices[i] {
            Some(k) => {
                proof {
                    lemma_count_le_sum(bins@, k as int);
                }
                let ghost old_bins = bins@;
                let b = bins[k];
                bins.set(k, b + c);
                proof {
                    lemma_sum_update(old_bins, k as int, (b + c) as u128);
                }
                total = total + c;
            },
            None => {},
        }
        i = i + 1;
    }
    proof {
        lemma_chosen_le_prefix(counts, choices@, n as int);
    }
    (bins, total)
}

} // verus!
