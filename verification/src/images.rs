//! Cover art on its way to the GPU: the RGBA to BGRA byte swap, and the cache that keeps one
//! converted image per artwork so a texture is uploaded once rather than every frame.

use vstd::prelude::*;
use std::collections::HashMap;

verus! {

broadcast use vstd::std_specs::hash::group_hash_axioms;

/// The byte at `i` once red and blue are swapped in every whole 4-byte pixel; a trailing
/// partial pixel is left as it is.
pub open spec fn bgra_byte(pixels: Seq<u8>, i: int) -> u8 {
    if i < 4 * (pixels.len() / 4) && i % 4 == 0 {
        pixels[i + 2]
    } else if i < 4 * (pixels.len() / 4) && i % 4 == 2 {
        pixels[i - 2]
    } else {
        pixels[i]
    }
}

/// `pixels` with red and blue swapped in every whole pixel.
pub open spec fn bgra_spec(pixels: Seq<u8>) -> Seq<u8> {
    Seq::new(pixels.len(), |i: int| bgra_byte(pixels, i))
}

/// Swaps the first and third byte of every whole 4-byte pixel: RGBA becomes BGRA, the order
/// the GPU reads frames in, and back again.
pub fn swap_red_blue(pixels: &mut Vec<u8>)
    ensures
        final(pixels)@ == bgra_spec(old(pixels)@),
{
    let ghost original = pixels@;
    let whole = pixels.len() / 4;
    let mut p: usize = 0;
    while p < whole
        invariant
            whole == original.len() / 4,
            4 * whole <= original.len(),
            original.len() <= usize::MAX,
            p <= whole,
            pixels@.len() == original.len(),
            forall|i: int| 0 <= i < 4 * p ==> pixels@[i] == bgra_byte(original, i),
            forall|i: int| 4 * p <= i < original.len() ==> pixels@[i] == original[i],
        decreases whole - p,
    {
        let base = 4 * p;
        let red = pixels[base];
        let blue = pixels[base + 2];
        pixels.set(base, blue);
        pixels.set(base + 2, red);
        proof {
            assert forall|i: int| 4 * p <= i < 4 * p + 4 implies pixels@[i] == bgra_byte(original, i) by {
                assert(i % 4 == i - 4 * p);
            }
        }
        p = p + 1;
    }
    proof {
        assert(pixels@ =~= bgra_spec(original));
    }
}

/// Swapping twice gives the original bytes back.
pub proof fn lemma_swap_red_blue_involution(pixels: Seq<u8>)
    ensures
        bgra_spec(bgra_spec(pixels)) == pixels,
{
    let once = bgra_spec(pixels);
    assert forall|i: int| 0 <= i < pixels.len() implies #[trigger] bgra_spec(once)[i] == pixels[i] by {
        if i < 4 * (pixels.len() / 4) && i % 4 == 0 {
            assert((i + 2) % 4 == 2);
            assert(i + 2 < 4 * (pixels.len() / 4));
        } else if i < 4 * (pixels.len() / 4) && i % 4 == 2 {
            assert((i - 2) % 4 == 0);
        }
    }
    assert(bgra_spec(once) =~= pixels);
}

/// Room for the thumbnail cache plus the large covers. Entries rebuild cheaply from the
/// retained artwork, so overflow just clears the map.
pub const CACHE_CAP: usize = 400;

/// Converted images by artwork address. Each entry keeps its artwork alive, so an address
/// cannot be freed and reused by a different image while its entry lives.
pub struct ImageCache<A, I> {
    entries: HashMap<usize, (A, I)>,
}

impl<A, I: Clone> ImageCache<A, I> {
    /// The entries, by key.
    pub closed spec fn entries(&self) -> Map<usize, (A, I)> {
        self.entries@
    }

    /// An empty cache.
    pub fn new() -> (cache: Self)
        ensures
            cache.entries() == Map::<usize, (A, I)>::empty(),
    {
        ImageCache { entries: HashMap::new() }
    }

    /// How many images are cached.
    pub fn len(&self) -> (n: usize)
        ensures
            n == self.entries().len(),
    {
        self.entries.len()
    }

    /// The image for the artwork at address `key`, converted on first sight. A cached image is
    /// handed out again; otherwise `convert` runs once, and when it succeeds its image is
    /// stored with `artwork` (after clearing the cache if it is full) and handed out. A failed
    /// conversion leaves the cache as it was.
    pub fn get<F: FnOnce() -> Option<I>>(&mut self, key: usize, artwork: A, convert: F) -> (image: Option<I>)
        requires
            convert.requires(()),
        ensures
            old(self).entries().len() <= CACHE_CAP ==> final(self).entries().len() <= CACHE_CAP,
            old(self).entries().contains_key(key) ==> {
                &&& final(self).entries() == old(self).entries()
                &&& image matches Some(img) && cloned(old(self).entries()[key].1, img)
            },
            !old(self).entries().contains_key(key) ==> exists|converted: Option<I>| {
                &&& convert.ensures((), converted)
                &&& match converted {
                    None => image is None && final(self).entries() == old(self).entries(),
                    Some(fresh) => {
                        &&& image matches Some(img) && cloned(fresh, img)
                        &&& final(self).entries() == (if old(self).entries().len() >= CACHE_CAP {
                            Map::<usize, (A, I)>::empty()
                        } else {
                            old(self).entries()
                        }).insert(key, (artwork, fresh))
                    },
                }
            },
    {
        if !self.entries.contains_key(&key) {
            let converted = convert();
            let fresh = match converted {
                Some(fresh) => fresh,
                None => {
                    return None;
                },
            };
            if self.entries.len() >= CACHE_CAP {
                self.entries.clear();
            }
            let handed = fresh.clone();
            self.entries.insert(key, (artwork, fresh));
            return Some(handed);
        }
        match self.entries.get(&key) {
            Some(entry) => Some(entry.1.clone()),
            None => None,
        }
    }
}

} // verus!
