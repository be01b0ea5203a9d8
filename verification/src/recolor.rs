//! Recolouring of an image, one distinct colour at a time.
use vstd::prelude::*;

use std::collections::HashMap;

use crate::tally::{lemma_rgb_key_injective, pixel_at, rgb_key, rgb_key_of, Rgb8};

verus! {

broadcast use vstd::std_specs::hash::group_hash_axioms;

/// Replaces every pixel of a buffer of packed RGB bytes (three bytes per
/// pixel) by the colour that `adjust` gives for it.
///
/// `adjust` is called once per distinct colour and its answer is reused for
/// every later pixel of that colour, so each new pixel is an answer of
/// `adjust` for the old pixel, and pixels that shared a colour still share
/// one afterwards.
pub fn recolor_pixels<F: Fn(Rgb8) -> Rgb8>(raw: &mut Vec<u8>, adjust: F)
    requires
        old(raw)@.len() % 3 == 0,
        forall|c: Rgb8| adjust.requires((c,)),
    ensures
        final(raw)@.len() == old(raw)@.len(),
        forall|i: int|
            0 <= i < old(raw)@.len() / 3 ==> adjust.ensures(
                (pixel_at(old(raw)@, i),),
                #[trigger] pixel_at(final(raw)@, i),
            ),
        forall|i: int, j: int|
            #![trigger pixel_at(final(raw)@, i), pixel_at(final(raw)@, j)]
            0 <= i < old(raw)@.len() / 3 && 0 <= j < old(raw)@.len() / 3 && pixel_at(old(raw)@, i)
                == pixel_at(old(raw)@, j) ==> pixel_at(final(raw)@, i) == pixel_at(
                final(raw)@,
                j,
            ),
{
    let ghost source = raw@;
    let n = raw.len() / 3;
    assert(source.len() == 3 * n) by (nonlinear_arith)
        requires
            n == source.len() / 3,
            source.len() % 3 == 0,
    ;
    let mut cache: HashMap<u32, Rgb8> = HashMap::new();
    let mut i: usize = 0;
    while i < n
        invariant
            forall|c: Rgb8| adjust.requires((c,)),
            n == source.len() / 3,
            source.len() == 3 * n,
            source.len() <= usize::MAX,
            raw@.len() == source.len(),
            i <= n,
            forall|b: int| 3 * i <= b < source.len() ==> #[trigger] raw@[b] == source[b],
            forall|c: Rgb8|
                #[trigger] cache@.contains_key(rgb_key(c)) ==> adjust.ensures(
                    (c,),
                    cache@[rgb_key(c)],
                ),
            forall|j: int|
                0 <= j < i ==> #[trigger] cache@.contains_key(rgb_key(pixel_at(source, j))),
            forall|j: int|
                0 <= j < i ==> #[trigger] pixel_at(raw@, j) == cache@[rgb_key(
                    pixel_at(source, j),
                )],
        decreases n - i,
    {
        let p: Rgb8 = (raw[3 * i], raw[3 * i + 1], raw[3 * i + 2]);
        assert(p == pixel_at(source, i as int));
        let key = rgb_key_of(p);
        let ghost old_cache = cache@;
        let q: Rgb8 = match cache.get(&key) {
            Some(v) => *v,
            None => {
                let v = adjust(p);
                proof {
                    assert forall|c: Rgb8| #[trigger]
                        cache@.insert(key, v).contains_key(rgb_key(c)) implies adjust.ensures(
                        (c,),
                        cache@.insert(key, v)[rgb_key(c)],
                    ) by {
                        if rgb_key(c) == key {
                            lemma_rgb_key_injective(c, p);
                        }
                    }
                }
                cache.insert(key, v);
                v
            },
        };
        assert(cache@.contains_key(key) && cache@[key] == q);
        assert(forall|k: u32| #[trigger]
            old_cache.contains_key(k) ==> cache@.contains_key(k) && cache@[k] == old_cache[k]);
        let ghost before = raw@;
        raw.set(3 * i, q.0);
        raw.set(3 * i + 1, q.1);
        raw.set(3 * i + 2, q.2);
        proof {
            assert forall|j: int| 0 <= j < i + 1 implies #[trigger] cache@.contains_key(
                rgb_key(pixel_at(source, j)),
            ) by {
                if j < i {
                    assert(old_cache.contains_key(rgb_key(pixel_at(source, j))));
                }
            }
            assert forall|j: int| 0 <= j < i + 1 implies #[trigger] pixel_at(raw@, j)
                == cache@[rgb_key(pixel_at(source, j))] by {
                if j < i {
                    assert(pixel_at(raw@, j) == pixel_at(before, j));
                    assert(old_cache.contains_key(rgb_key(pixel_at(source, j))));
                } else {
                    assert(raw@[3 * j] == q.0);
                    assert(raw@[3 * j + 1] == q.1);
                    assert(raw@[3 * j + 2] == q.2);
                }
            }
        }
        i = i + 1;
    }
    proof {
        assert forall|i: int| 0 <= i < source.len() / 3 implies adjust.ensures(
            (pixel_at(source, i),),
            #[trigger] pixel_at(raw@, i),
        ) by {
            assert(cache@.contains_key(rgb_key(pixel_at(source, i))));
        }
    }
}

} // verus!
