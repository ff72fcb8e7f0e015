//! Decoded background images, the cache that holds them, and the pass that
//! turns the black surround of an overlay transparent.

use vstd::prelude::*;
use std::sync::Arc;
use image::{ImageBuffer, Luma};
use imageproc::region_labelling::{connected_components, Connectivity};
use crate::loops::BgaLayer;
use crate::media::share;

verus! {

/// A decoded picture: RGBA, eight bits a channel, row by row.
#[derive(Clone, Debug, PartialEq, Eq)]
pub struct DecodedImage {
    /// The pixels, four bytes each.
    pub rgba: Vec<u8>,
    /// Pixels in a row.
    pub width: u32,
    /// Number of rows.
    pub height: u32,
}

/// What a decoded picture holds.
pub struct ImageView {
    /// The pixels, four bytes each.
    pub rgba: Seq<u8>,
    /// Pixels in a row.
    pub width: u32,
    /// Number of rows.
    pub height: u32,
}

impl View for DecodedImage {
    type V = ImageView;

    open spec fn view(&self) -> ImageView {
        ImageView { rgba: self.rgba@, width: self.width, height: self.height }
    }
}

/// Form in which a picture is cached.
#[derive(Clone, Copy, Debug, PartialEq, Eq, Structural, Hash)]
pub enum DecodeVariant {
    /// As decoded.
    Raw,
    /// With the black surround made transparent.
    RemoveBackground,
}

/// One cached picture with the key it is stored under.
struct CacheEntry {
    path: String,
    variant: DecodeVariant,
    image: Arc<DecodedImage>,
}

/// Cache of decoded pictures by file path and variant. Nothing is ever
/// evicted: a chart names a finite set of files.
pub struct BgaDecodeCache {
    entries: Vec<CacheEntry>,
}

/// The map that a list of entries stands for; of two entries under one key
/// the later one counts.
spec fn contents(entries: Seq<CacheEntry>) -> Map<(Seq<char>, DecodeVariant), ImageView>
    decreases entries.len(),
{
    if entries.len() == 0 {
        Map::empty()
    } else {
        let last = entries.last();
        contents(entries.drop_last()).insert((last.path@, last.variant), last.image@)
    }
}

/// An entry that no later entry shadows is what the map holds under its key.
proof fn lemma_found(entries: Seq<CacheEntry>, i: int)
    requires
        0 <= i < entries.len(),
        forall|j: int|
            i < j < entries.len() ==> !(entries[j].path@ == entries[i].path@ && entries[j].variant
                == entries[i].variant),
    ensures
        contents(entries).contains_key((entries[i].path@, entries[i].variant)),
        contents(entries)[(entries[i].path@, entries[i].variant)] == entries[i].image@,
    decreases entries.len(),
{
    if i < entries.len() - 1 {
        let rest = entries.drop_last();
        assert(rest[i] == entries[i]);
        assert forall|j: int| i < j < rest.len() implies !(rest[j].path@ == rest[i].path@
            && rest[j].variant == rest[i].variant) by {
            assert(rest[j] == entries[j]);
        }
        lemma_found(rest, i);
    }
}

/// A key that no entry has is not in the map.
proof fn lemma_absent(entries: Seq<CacheEntry>, path: Seq<char>, variant: DecodeVariant)
    requires
        forall|j: int|
            0 <= j < entries.len() ==> !(entries[j].path@ == path && entries[j].variant == variant),
    ensures
        !contents(entries).contains_key((path, variant)),
    decreases entries.len(),
{
    if entries.len() > 0 {
        let rest = entries.drop_last();
        assert forall|j: int| 0 <= j < rest.len() implies !(rest[j].path@ == path
            && rest[j].variant == variant) by {
            assert(rest[j] == entries[j]);
        }
        lemma_absent(rest, path, variant);
    }
}

/// Replacing an entry that no later entry shadows by one with the same key
/// replaces the picture under that key and nothing else.
proof fn lemma_replaced(entries: Seq<CacheEntry>, i: int, entry: CacheEntry)
    requires
        0 <= i < entries.len(),
        entry.path@ == entries[i].path@,
        entry.variant == entries[i].variant,
        forall|j: int|
            i < j < entries.len() ==> !(entries[j].path@ == entries[i].path@ && entries[j].variant
                == entries[i].variant),
    ensures
        contents(entries.update(i, entry)) == contents(entries).insert(
            (entry.path@, entry.variant),
            entry.image@,
        ),
    decreases entries.len(),
{
    let updated = entries.update(i, entry);
    let rest = entries.drop_last();
    if i == entries.len() - 1 {
        assert(updated.drop_last() =~= rest);
        assert(contents(updated) =~= contents(entries).insert(
            (entry.path@, entry.variant),
            entry.image@,
        ));
    } else {
        assert(rest[i] == entries[i]);
        assert forall|j: int| i < j < rest.len() implies !(rest[j].path@ == rest[i].path@
            && rest[j].variant == rest[i].variant) by {
            assert(rest[j] == entries[j]);
        }
        lemma_replaced(rest, i, entry);
        assert(updated.drop_last() =~= rest.update(i, entry));
        assert(updated.last() == entries.last());
        assert(contents(updated) =~= contents(entries).insert(
            (entry.path@, entry.variant),
            entry.image@,
        ));
    }
}

impl BgaDecodeCache {
    /// The pictures held, by path and variant.
    pub closed spec fn view(&self) -> Map<(Seq<char>, DecodeVariant), ImageView> {
        contents(self.entries@)
    }

    /// An empty cache.
    pub fn new() -> (cache: Self)
        ensures
            cache@ == Map::<(Seq<char>, DecodeVariant), ImageView>::empty(),
    {
        BgaDecodeCache { entries: Vec::new() }
    }

    /// Position of the entry that counts for a key, if the key is held.
    fn find(&self, variant: DecodeVariant, path: &String) -> (at: Option<usize>)
        ensures
            match at {
                Some(i) => {
                    &&& i < self.entries@.len()
                    &&& self.entries@[i as int].path@ == path@
                    &&& self.entries@[i as int].variant == variant
                    &&& forall|j: int|
                        i < j < self.entries@.len() ==> !(self.entries@[j].path@ == path@
                            && self.entries@[j].variant == variant)
                    &&& self@.contains_key((path@, variant))
                    &&& self@[(path@, variant)] == self.entries@[i as int].image@
                },
                None => !self@.contains_key((path@, variant)),
            },
    {
        let mut i: usize = self.entries.len();
        while i > 0
            invariant
                i <= self.entries@.len(),
                forall|j: int|
                    i <= j < self.entries@.len() ==> !(self.entries@[j].path@ == path@
                        && self.entries@[j].variant == variant),
            decreases i,
        {
            i -= 1;
            if self.entries[i].variant == variant && self.entries[i].path == *path {
                proof {
                    lemma_found(self.entries@, i as int);
                }
                return Some(i);
            }
        }
        proof {
            lemma_absent(self.entries@, path@, variant);
        }
        None
    }

    /// Tells whether a picture is held under the key.
    pub fn contains(&self, variant: DecodeVariant, path: &String) -> (held: bool)
        ensures
            held == self@.contains_key((path@, variant)),
    {
        self.find(variant, path).is_some()
    }

    /// The picture held under the key, shared with the cache.
    pub fn get_variant(&self, variant: DecodeVariant, path: &String) -> (found: Option<
        Arc<DecodedImage>,
    >)
        ensures
            match found {
                Some(image) => self@.contains_key((path@, variant)) && image@ == self@[(
                    path@,
                    variant,
                )],
                None => !self@.contains_key((path@, variant)),
            },
    {
        match self.find(variant, path) {
            Some(i) => Some(share(&self.entries[i].image)),
            None => None,
        }
    }

    /// Stores a picture under the key, in place of what was held there, and
    /// returns it shared with the cache.
    pub fn insert_variant(
        &mut self,
        variant: DecodeVariant,
        path: String,
        rgba: Vec<u8>,
        width: u32,
        height: u32,
    ) -> (stored: Arc<DecodedImage>)
        ensures
            stored@ == (ImageView { rgba: rgba@, width, height }),
            final(self)@ == old(self)@.insert((path@, variant), stored@),
    {
        let image = Arc::new(DecodedImage { rgba, width, height });
        let stored = share(&image);
        let at = self.find(variant, &path);
        let entry = CacheEntry { path, variant, image };
        match at {
            Some(i) => {
                proof {
                    lemma_replaced(self.entries@, i as int, entry);
                }
                self.entries[i] = entry;
            },
            None => {
                let ghost before = self.entries@;
                self.entries.push(entry);
                assert(self.entries@.drop_last() =~= before);
            },
        }
        stored
    }
}

/// Variant that a layer is drawn from.
pub open spec fn variant_for(layer: BgaLayer) -> DecodeVariant {
    match layer {
        BgaLayer::Layer | BgaLayer::Layer2 => DecodeVariant::RemoveBackground,
        BgaLayer::Bga | BgaLayer::Poor => DecodeVariant::Raw,
    }
}

/// Maps a layer to the variant it needs: overlays are drawn without their
/// background, the base and miss layers as decoded.
pub fn layer_to_variant(layer: BgaLayer) -> (variant: DecodeVariant)
    ensures
        variant == variant_for(layer),
{
    match layer {
        BgaLayer::Layer | BgaLayer::Layer2 => DecodeVariant::RemoveBackground,
        BgaLayer::Bga | BgaLayer::Poor => DecodeVariant::Raw,
    }
}

/// Whether pixel `p` is pure black and fully opaque. A pixel that the
/// buffer does not hold in full is not.
pub open spec fn is_opaque_black(rgba: Seq<u8>, p: int) -> bool {
    &&& 0 <= p
    &&& 4 * p + 4 <= rgba.len()
    &&& rgba[4 * p] == 0
    &&& rgba[4 * p + 1] == 0
    &&& rgba[4 * p + 2] == 0
    &&& rgba[4 * p + 3] == 255
}

/// The picture as a mask: 1 for each pixel that is pure opaque black, 0 for
/// every other.
pub open spec fn black_mask(rgba: Seq<u8>, width: u32, height: u32) -> Seq<u8> {
    Seq::new(
        (width * height) as nat,
        |p: int|
            if is_opaque_black(rgba, p) {
                1u8
            } else {
                0u8
            },
    )
}

/// Whether a picture is small enough to be labelled.
pub open spec fn can_label(width: u32, height: u32) -> bool {
    width * height < 0x1_0000_0000
}

/// Whether pixel `q` lies next to pixel `p`: to its right or left in the
/// same row, or below or above it, in a picture of the given width.
pub open spec fn neighbours(width: u32, p: int, q: int) -> bool {
    ||| q == p + 1 && q % (width as int) != 0
    ||| q == p - 1 && p % (width as int) != 0
    ||| q == p + width
    ||| q == p - width
}

/// Whether `path` is a walk through the foreground of a mask, from pixel to
/// neighbouring pixel.
pub open spec fn is_path(mask: Seq<u8>, width: u32, path: Seq<int>) -> bool {
    &&& forall|i: int|
        0 <= i < path.len() ==> 0 <= #[trigger] path[i] < mask.len() && mask[path[i]] != 0
    &&& forall|i: int| 0 <= i < path.len() - 1 ==> neighbours(width, #[trigger] path[i], path[i + 1])
}

/// Whether two pixels of the foreground of a mask belong to one four-way
/// connected region: a walk through the foreground leads from the one to
/// the other.
pub open spec fn linked(mask: Seq<u8>, width: u32, p: int, q: int) -> bool {
    exists|path: Seq<int>|
        path.len() > 0 && path.first() == p && path.last() == q && #[trigger] is_path(
            mask,
            width,
            path,
        )
}

/// Whether a list of labels is a labelling of the regions of a mask: 0 for
/// the background and for nothing else, and the same label for two pixels
/// of the foreground exactly where they belong to one region.
pub open spec fn labels_regions(labels: Seq<u32>, mask: Seq<u8>, width: u32) -> bool {
    &&& labels.len() == mask.len()
    &&& forall|p: int| 0 <= p < mask.len() ==> (#[trigger] labels[p] == 0 <==> mask[p] == 0)
    &&& forall|p: int, q: int|
        0 <= p < mask.len() && 0 <= q < mask.len() && mask[p] != 0 && mask[q] != 0 ==> (
        #[trigger] labels[p] == #[trigger] labels[q] <==> linked(mask, width, p, q))
}

/// Whether a mask holds nothing but 0 and 1.
pub open spec fn is_binary(mask: Seq<u8>) -> bool {
    forall|p: int| 0 <= p < mask.len() ==> #[trigger] mask[p] <= 1
}

/// The labels that `imageproc::region_labelling::connected_components` gives
/// the pixels of a mask of the given size, with four-way connectivity and 0
/// as the background: one label for each connected region of equal pixels,
/// 0 for the background.
pub uninterp spec fn component_labels(mask: Seq<u8>, width: u32, height: u32) -> Seq<u32>;

/// `imageproc::region_labelling::connected_components` on a grey image made
/// of `mask`, with `Connectivity::Four` and background 0. The contract names
/// the labels and says what the function's documentation says of them:
/// there is one for each pixel, as the function returns an image of the
/// size of its input; a pixel is labelled 0 exactly where it is background;
/// and the pixels of the foreground are labelled by the connected region
/// that they belong to, a pixel being connected to its neighbours to the
/// north, south, east and west.
///
/// Two kinds of input are left out because the function panics on them:
/// pictures of 2^32 pixels or more, and pictures in which every pixel would
/// start a region of its own, where the function looks up a label as large
/// as the number of pixels. Of the masks of 0 and 1 that is the single pixel
/// alone: in every larger one a pixel of the foreground has an equal
/// neighbour to its left or above it, or there is a pixel of the background.
#[verifier::external_body]
fn label_components(mask: Vec<u8>, width: u32, height: u32) -> (labels: Vec<u32>)
    requires
        mask@.len() == width * height,
        can_label(width, height),
        is_binary(mask@),
        width * height != 1,
    ensures
        labels@ == component_labels(mask@, width, height),
        labels_regions(labels@, mask@, width),
{
    match ImageBuffer::<Luma<u8>, Vec<u8>>::from_raw(width, height, mask) {
        Some(image) => connected_components(&image, Connectivity::Four, Luma([0u8])).into_raw(),
        None => Vec::new(),
    }
}

/// The labels of the regions of a mask of 0 and 1. A picture of a single
/// pixel has one region at most, which gets the label 1.
pub open spec fn region_labels(mask: Seq<u8>, width: u32, height: u32) -> Seq<u32> {
    if width * height == 1 {
        seq![mask[0] as u32]
    } else {
        component_labels(mask, width, height)
    }
}

/// Whether `label` is the label of a region that touches a corner of the
/// picture.
pub open spec fn is_corner_label(labels: Seq<u32>, width: u32, height: u32, label: u32) -> bool {
    let n = width * height;
    &&& label != 0
    &&& (label == labels[0] || label == labels[width - 1] || label == labels[n - width] || label
        == labels[n - 1])
}

/// Whether byte `k` of the buffer belongs to a pixel that is cleared.
pub open spec fn is_cleared(rgba: Seq<u8>, labels: Seq<u32>, width: u32, height: u32, k: int)
    -> bool {
    let p = k / 4;
    &&& p < width * height
    &&& 4 * p + 4 <= rgba.len()
    &&& is_corner_label(labels, width, height, labels[p])
}

/// The buffer with every pixel set to transparent black whose label is that
/// of a region touching a corner.
pub open spec fn without_regions(rgba: Seq<u8>, labels: Seq<u32>, width: u32, height: u32) -> Seq<
    u8,
> {
    Seq::new(
        rgba.len(),
        |k: int|
            if is_cleared(rgba, labels, width, height, k) {
                0u8
            } else {
                rgba[k]
            },
    )
}

/// Whether a pixel of the foreground of a mask belongs to a region that
/// holds one of the four corner pixels.
pub open spec fn reaches_corner(mask: Seq<u8>, width: u32, height: u32, p: int) -> bool {
    let n = width * height;
    &&& mask[p] != 0
    &&& (linked(mask, width, p, 0) || linked(mask, width, p, width - 1) || linked(
        mask,
        width,
        p,
        n - width,
    ) || linked(mask, width, p, n - 1))
}

/// The picture with every pixel made transparent black that is pure opaque
/// black and from which a walk over pure opaque black pixels, from pixel to
/// neighbouring pixel, leads to a corner of the picture. Pixels that the
/// buffer does not hold in full stay as they are.
pub open spec fn surround_cleared(rgba: Seq<u8>, width: u32, height: u32) -> Seq<u8> {
    Seq::new(
        rgba.len(),
        |k: int|
            if k / 4 < width * height && 4 * (k / 4) + 4 <= rgba.len() && reaches_corner(
                black_mask(rgba, width, height),
                width,
                height,
                k / 4,
            ) {
                0u8
            } else {
                rgba[k]
            },
    )
}

/// Two linked pixels are pixels of the foreground.
pub proof fn linked_pixels_are_foreground(mask: Seq<u8>, width: u32, p: int, q: int)
    requires
        linked(mask, width, p, q),
    ensures
        0 <= p < mask.len(),
        0 <= q < mask.len(),
        mask[p] != 0,
        mask[q] != 0,
{
    let path = choose|path: Seq<int>|
        path.len() > 0 && path.first() == p && path.last() == q && #[trigger] is_path(
            mask,
            width,
            path,
        );
    assert(path[0] == p);
    assert(path[path.len() - 1] == q);
}

/// A pixel of the foreground is linked to itself.
pub proof fn pixel_is_linked_to_itself(mask: Seq<u8>, width: u32, p: int)
    requires
        0 <= p < mask.len(),
        mask[p] != 0,
    ensures
        linked(mask, width, p, p),
{
    let path = seq![p];
    assert(is_path(mask, width, path));
    assert(path.first() == p && path.last() == p);
}

/// Under a labelling of the regions, a pixel of the foreground has the
/// label of another pixel exactly where the two are linked.
proof fn same_label_is_link(labels: Seq<u32>, mask: Seq<u8>, width: u32, p: int, c: int)
    requires
        labels_regions(labels, mask, width),
        0 <= p < mask.len(),
        0 <= c < mask.len(),
        mask[p] != 0,
    ensures
        labels[p] == labels[c] <==> linked(mask, width, p, c),
{
    if mask[c] == 0 {
        assert(labels[c] == 0);
        assert(labels[p] != 0);
        if linked(mask, width, p, c) {
            linked_pixels_are_foreground(mask, width, p, c);
        }
    }
}

/// Under a labelling of the regions, a pixel has the label of a region at
/// a corner exactly where it belongs to such a region.
proof fn corner_label_is_reach(labels: Seq<u32>, mask: Seq<u8>, width: u32, height: u32, p: int)
    requires
        labels_regions(labels, mask, width),
        width != 0,
        height != 0,
        mask.len() == width * height,
        0 <= p < mask.len(),
    ensures
        is_corner_label(labels, width, height, labels[p]) <==> reaches_corner(
            mask,
            width,
            height,
            p,
        ),
{
    let n = width * height;
    assert(n >= width) by (nonlinear_arith)
        requires
            n == width * height,
            height >= 1,
            width >= 1,
    ;
    if mask[p] != 0 {
        assert(labels[p] != 0);
        same_label_is_link(labels, mask, width, p, 0);
        same_label_is_link(labels, mask, width, p, width - 1);
        same_label_is_link(labels, mask, width, p, n - width);
        same_label_is_link(labels, mask, width, p, n - 1);
    } else {
        assert(labels[p] == 0);
    }
}

/// The picture in the given variant. A picture without pixels has nothing
/// to remove.
pub open spec fn preprocessed(rgba: Seq<u8>, width: u32, height: u32, variant: DecodeVariant)
    -> Seq<u8> {
    if variant == DecodeVariant::RemoveBackground && width != 0 && height != 0 {
        surround_cleared(rgba, width, height)
    } else {
        rgba
    }
}

/// Number of pixels of a picture that can be labelled.
fn pixel_count(width: u32, height: u32) -> (n: usize)
    requires
        can_label(width, height),
    ensures
        n == width * height,
{
    let n: u64 = (width as u64) * (height as u64);
    n as usize
}

/// Tells whether pixel `p` is pure black and fully opaque.
fn pixel_is_opaque_black(rgba: &Vec<u8>, p: usize) -> (black: bool)
    ensures
        black == is_opaque_black(rgba@, p as int),
{
    if rgba.len() >= 4 && p <= (rgba.len() - 4) / 4 {
        let base: usize = p * 4;
        rgba[base] == 0 && rgba[base + 1] == 0 && rgba[base + 2] == 0 && rgba[base + 3] == 255
    } else {
        false
    }
}

/// Builds the mask of the pure opaque black pixels of a picture.
pub fn build_mask(rgba: &Vec<u8>, width: u32, height: u32) -> (mask: Vec<u8>)
    requires
        can_label(width, height),
    ensures
        mask@ == black_mask(rgba@, width, height),
{
    let n = pixel_count(width, height);
    let mut mask: Vec<u8> = Vec::new();
    let mut p: usize = 0;
    while p < n
        invariant
            p <= n,
            n == width * height,
            mask@.len() == p,
            forall|q: int|
                0 <= q < p ==> mask@[q] == (if is_opaque_black(rgba@, q) {
                    1u8
                } else {
                    0u8
                }),
        decreases n - p,
    {
        let bit: u8 = if pixel_is_opaque_black(rgba, p) {
            1
        } else {
            0
        };
        mask.push(bit);
        p += 1;
    }
    assert(mask@ =~= black_mask(rgba@, width, height));
    mask
}

/// Tells whether `label` is that of a region touching a corner.
fn label_is_at_corner(labels: &Vec<u32>, width: u32, height: u32, label: u32) -> (yes: bool)
    requires
        width != 0,
        height != 0,
        can_label(width, height),
        labels@.len() == width * height,
    ensures
        yes == is_corner_label(labels@, width, height, label),
{
    let n = pixel_count(width, height);
    assert(width * height >= width) by (nonlinear_arith)
        requires
            height >= 1,
            width >= 1,
    ;
    let w: usize = width as usize;
    label != 0 && (label == labels[0] || label == labels[w - 1] || label == labels[n - w] || label
        == labels[n - 1])
}

/// Clears the regions that touch a corner: every pixel whose label is not 0
/// and is the label of one of the four corner pixels becomes transparent
/// black. Pixels that the buffer does not hold in full stay as they are.
pub fn clear_corner_regions(rgba: &mut Vec<u8>, labels: &Vec<u32>, width: u32, height: u32)
    requires
        width != 0,
        height != 0,
        can_label(width, height),
        labels@.len() == width * height,
    ensures
        final(rgba)@ == without_regions(old(rgba)@, labels@, width, height),
{
    let n = pixel_count(width, height);
    let ghost before = rgba@;
    let mut p: usize = 0;
    while p < n
        invariant
            p <= n,
            n == width * height,
            width != 0,
            height != 0,
            can_label(width, height),
            labels@.len() == n,
            rgba@.len() == before.len(),
            forall|k: int|
                0 <= k < before.len() ==> rgba@[k] == (if k / 4 < p && is_cleared(
                    before,
                    labels@,
                    width,
                    height,
                    k,
                ) {
                    0u8
                } else {
                    before[k]
                }),
        decreases n - p,
    {
        if rgba.len() >= 4 && p <= (rgba.len() - 4) / 4 && label_is_at_corner(
            labels,
            width,
            height,
            labels[p],
        ) {
            let base: usize = p * 4;
            rgba[base] = 0;
            rgba[base + 1] = 0;
            rgba[base + 2] = 0;
            rgba[base + 3] = 0;
        }
        p += 1;
    }
    assert(rgba@ =~= without_regions(before, labels@, width, height));
}

/// Labels the regions of a mask of 0 and 1: each pixel of the foreground
/// gets the label of the four-way connected region that it belongs to, each
/// pixel of the background 0.
pub fn label_regions(mask: Vec<u8>, width: u32, height: u32) -> (labels: Vec<u32>)
    requires
        mask@.len() == width * height,
        can_label(width, height),
        is_binary(mask@),
    ensures
        labels@ == region_labels(mask@, width, height),
        labels_regions(labels@, mask@, width),
{
    if mask.len() == 1 {
        let mut labels: Vec<u32> = Vec::new();
        labels.push(mask[0] as u32);
        assert(labels@ =~= seq![mask@[0] as u32]);
        proof {
            if mask@[0] != 0 {
                pixel_is_linked_to_itself(mask@, width, 0);
            }
        }
        labels
    } else {
        label_components(mask, width, height)
    }
}

/// Turns the black surround of a picture transparent: the pure opaque black
/// pixels are grouped into four-way connected regions, and every region that
/// holds a corner pixel is cleared. Every other pixel stays as it is.
pub fn remove_background(rgba: &mut Vec<u8>, width: u32, height: u32)
    requires
        width != 0,
        height != 0,
        can_label(width, height),
    ensures
        final(rgba)@ == surround_cleared(old(rgba)@, width, height),
{
    let mask = build_mask(rgba, width, height);
    let ghost marked = mask@;
    let labels = label_regions(mask, width, height);
    clear_corner_regions(rgba, &labels, width, height);
    proof {
        assert forall|k: int| 0 <= k < rgba@.len() implies rgba@[k] == surround_cleared(
            old(rgba)@,
            width,
            height,
        )[k] by {
            if k / 4 < width * height {
                corner_label_is_reach(labels@, marked, width, height, k / 4);
            }
        }
        assert(rgba@ =~= surround_cleared(old(rgba)@, width, height));
    }
}

/// Brings a decoded picture into the given variant.
pub fn preprocess_rgba(rgba: Vec<u8>, width: u32, height: u32, variant: DecodeVariant) -> (out: Vec<
    u8,
>)
    requires
        variant == DecodeVariant::RemoveBackground && width != 0 && height != 0 ==> can_label(
            width,
            height,
        ),
    ensures
        out@ == preprocessed(rgba@, width, height, variant),
{
    let mut rgba = rgba;
    match variant {
        DecodeVariant::RemoveBackground => {
            if width != 0 && height != 0 {
                remove_background(&mut rgba, width, height);
            }
        },
        DecodeVariant::Raw => {},
    }
    rgba
}

/// Tells whether a picture is small enough to be labelled.
pub fn fits_labelling(width: u32, height: u32) -> (fits: bool)
    ensures
        fits == can_label(width, height),
{
    assert(width * height <= 0xffff_ffff * 0xffff_ffff) by (nonlinear_arith)
        requires
            0 <= width <= 0xffff_ffff,
            0 <= height <= 0xffff_ffff,
    ;
    (width as u64) * (height as u64) < 0x1_0000_0000u64
}

/// What `image::load_from_memory_with_format` makes of the bytes of a file,
/// read as the format that `image::guess_format` tells from their first
/// bytes, and brought to RGBA with eight bits a channel: the pixels, the
/// width and the height; or none where the format is not known or the bytes
/// are no picture of that format.
pub uninterp spec fn decoded_image(bytes: Seq<u8>) -> Option<(Seq<u8>, u32, u32)>;

/// `image::guess_format`, then `image::load_from_memory_with_format` with
/// the format found, then `DynamicImage::to_rgba8` and the buffer's `width`,
/// `height` and `into_raw`. Both calls go by the formats built into the
/// crate and by the bytes alone. The contract names the outcome and says
/// that the buffer holds four bytes for each pixel, as a buffer of RGBA
/// pixels of that width and height does.
#[verifier::external_body]
fn decode_rgba(bytes: &Vec<u8>) -> (decoded: Option<(Vec<u8>, u32, u32)>)
    ensures
        match decoded {
            Some((rgba, width, height)) => decoded_image(bytes@) == Some((rgba@, width, height))
                && rgba@.len() == 4 * width * height,
            None => decoded_image(bytes@) is None,
        },
{
    let format = match image::guess_format(bytes.as_slice()) {
        Ok(format) => format,
        Err(_) => return None,
    };
    match image::load_from_memory_with_format(bytes.as_slice(), format) {
        Ok(picture) => {
            let buffer = picture.to_rgba8();
            let (width, height) = (buffer.width(), buffer.height());
            Some((buffer.into_raw(), width, height))
        },
        Err(_) => None,
    }
}

/// The picture that the bytes of a file give, where they give one that can
/// be preprocessed.
pub open spec fn usable_image(bytes: Seq<u8>) -> Option<ImageView> {
    match decoded_image(bytes) {
        Some((rgba, width, height)) => if can_label(width, height) {
            Some(ImageView { rgba, width, height })
        } else {
            None
        },
        None => None,
    }
}

/// A picture with its background removed.
pub open spec fn processed_view(raw: ImageView) -> ImageView {
    ImageView {
        rgba: preprocessed(raw.rgba, raw.width, raw.height, DecodeVariant::RemoveBackground),
        width: raw.width,
        height: raw.height,
    }
}

/// Whether showing `path` on `layer` needs the file's bytes: the wanted
/// variant is not cached and cannot be made from a cached one.
pub open spec fn needs_file(
    store: Map<(Seq<char>, DecodeVariant), ImageView>,
    layer: BgaLayer,
    path: Seq<char>,
) -> bool {
    let want = variant_for(layer);
    &&& !store.contains_key((path, want))
    &&& !(want == DecodeVariant::RemoveBackground && store.contains_key(
        (path, DecodeVariant::Raw),
    ))
}

/// Cache and picture after a request to show `path` on `layer`, where `file`
/// holds the bytes of the file, or none where it was not read.
///
/// A cached picture is returned as it is. A picture without background is
/// made from the cached raw one where there is one. Otherwise the file is
/// decoded and both variants are cached. A file that is missing or cannot be
/// decoded, and a picture too large to be labelled, give none and leave the
/// cache as it was.
pub open spec fn decode_step(
    store: Map<(Seq<char>, DecodeVariant), ImageView>,
    layer: BgaLayer,
    path: Seq<char>,
    file: Option<Seq<u8>>,
) -> (Map<(Seq<char>, DecodeVariant), ImageView>, Option<ImageView>) {
    let want = variant_for(layer);
    let raw_key = (path, DecodeVariant::Raw);
    let processed_key = (path, DecodeVariant::RemoveBackground);
    if store.contains_key((path, want)) {
        (store, Some(store[(path, want)]))
    } else if want == DecodeVariant::RemoveBackground && store.contains_key(raw_key) {
        let raw = store[raw_key];
        if can_label(raw.width, raw.height) {
            (store.insert(processed_key, processed_view(raw)), Some(processed_view(raw)))
        } else {
            (store, None)
        }
    } else {
        match file {
            Some(bytes) => match usable_image(bytes) {
                Some(raw) => (
                    store.insert(raw_key, raw).insert(processed_key, processed_view(raw)),
                    Some(
                        if want == DecodeVariant::Raw {
                            raw
                        } else {
                            processed_view(raw)
                        },
                    ),
                ),
                None => (store, None),
            },
            None => (store, None),
        }
    }
}

/// Cache after making sure that both variants of `path` are held, where
/// `file` holds the bytes of the file, or none where it was not read.
pub open spec fn ensure_step(
    store: Map<(Seq<char>, DecodeVariant), ImageView>,
    path: Seq<char>,
    file: Option<Seq<u8>>,
) -> Map<(Seq<char>, DecodeVariant), ImageView> {
    let raw_key = (path, DecodeVariant::Raw);
    let processed_key = (path, DecodeVariant::RemoveBackground);
    if store.contains_key(raw_key) {
        let raw = store[raw_key];
        if !store.contains_key(processed_key) && can_label(raw.width, raw.height) {
            store.insert(processed_key, processed_view(raw))
        } else {
            store
        }
    } else {
        match file {
            Some(bytes) => match usable_image(bytes) {
                Some(raw) => if store.contains_key(processed_key) {
                    store.insert(raw_key, raw)
                } else {
                    store.insert(raw_key, raw).insert(processed_key, processed_view(raw))
                },
                None => store,
            },
            None => store,
        }
    }
}

/// What an optional picture holds.
pub open spec fn shown(image: Option<Arc<DecodedImage>>) -> Option<ImageView> {
    match image {
        Some(picture) => Some(picture@),
        None => None,
    }
}

/// What an optional file holds.
pub open spec fn file_bytes(file: Option<Vec<u8>>) -> Option<Seq<u8>> {
    match file {
        Some(bytes) => Some(bytes@),
        None => None,
    }
}

/// A request that gave a picture gives the same picture when it is made
/// again, whatever is handed in as the file, leaves the cache as the first
/// request left it, and needs no file.
pub proof fn decode_is_idempotent(
    store: Map<(Seq<char>, DecodeVariant), ImageView>,
    layer: BgaLayer,
    path: Seq<char>,
    first: Option<Seq<u8>>,
    second: Option<Seq<u8>>,
)
    requires
        decode_step(store, layer, path, first).1 is Some,
    ensures
        decode_step(decode_step(store, layer, path, first).0, layer, path, second) == decode_step(
            store,
            layer,
            path,
            first,
        ),
        !needs_file(decode_step(store, layer, path, first).0, layer, path),
{
}

/// A request that needs no file gives the same with and without one.
pub proof fn file_is_read_only_when_needed(
    store: Map<(Seq<char>, DecodeVariant), ImageView>,
    layer: BgaLayer,
    path: Seq<char>,
    file: Option<Seq<u8>>,
)
    requires
        !needs_file(store, layer, path),
    ensures
        decode_step(store, layer, path, file) == decode_step(store, layer, path, None),
{
}

/// Once both variants of a path are held, no layer needs its file, and
/// making sure again changes nothing.
pub proof fn ensured_path_needs_no_file(
    store: Map<(Seq<char>, DecodeVariant), ImageView>,
    layer: BgaLayer,
    path: Seq<char>,
    file: Option<Seq<u8>>,
)
    requires
        store.contains_key((path, DecodeVariant::Raw)),
        store.contains_key((path, DecodeVariant::RemoveBackground)),
    ensures
        !needs_file(store, layer, path),
        ensure_step(store, path, file) == store,
{
}

/// Decodes the bytes of a file into a picture. Gives none for bytes that
/// are no picture, and for a picture too large to be labelled.
pub fn decode_image(bytes: &Vec<u8>) -> (decoded: Option<DecodedImage>)
    ensures
        match decoded {
            Some(picture) => usable_image(bytes@) == Some(picture@) && picture.rgba@.len() == 4
                * picture.width * picture.height,
            None => usable_image(bytes@) is None,
        },
{
    match decode_rgba(bytes) {
        Some((rgba, width, height)) => {
            if fits_labelling(width, height) {
                Some(DecodedImage { rgba, width, height })
            } else {
                None
            }
        },
        None => None,
    }
}

/// Tells whether showing `path` on `layer` needs the file to be read.
pub fn needs_decode(cache: &BgaDecodeCache, layer: BgaLayer, path: &String) -> (needed: bool)
    ensures
        needed == needs_file(cache@, layer, path@),
{
    let want = layer_to_variant(layer);
    if cache.contains(want, path) {
        false
    } else {
        match want {
            DecodeVariant::RemoveBackground => !cache.contains(DecodeVariant::Raw, path),
            DecodeVariant::Raw => true,
        }
    }
}

/// Makes the variant without background from a cached raw picture and
/// caches it. Gives none, and changes nothing, where the picture is too
/// large to be labelled.
fn derive_processed(cache: &mut BgaDecodeCache, path: String, raw: &Arc<DecodedImage>) -> (made:
    Option<Arc<DecodedImage>>)
    ensures
        can_label(raw.width, raw.height) ==> {
            &&& shown(made) == Some(processed_view(raw@))
            &&& final(cache)@ == old(cache)@.insert(
                (path@, DecodeVariant::RemoveBackground),
                processed_view(raw@),
            )
        },
        !can_label(raw.width, raw.height) ==> made is None && final(cache)@ == old(cache)@,
{
    if fits_labelling(raw.width, raw.height) {
        let rgba = preprocess_rgba(
            raw.rgba.clone(),
            raw.width,
            raw.height,
            DecodeVariant::RemoveBackground,
        );
        Some(
            cache.insert_variant(DecodeVariant::RemoveBackground, path, rgba, raw.width, raw.height),
        )
    } else {
        None
    }
}

/// Gives the picture to show for `path` on `layer`, from the cache where it
/// is there, and caches what it decodes. `file` holds the bytes of the file
/// at `path`, or none where the file was not read or could not be.
pub fn decode_and_cache(
    cache: &mut BgaDecodeCache,
    layer: BgaLayer,
    path: String,
    file: Option<Vec<u8>>,
) -> (picture: Option<Arc<DecodedImage>>)
    ensures
        (final(cache)@, shown(picture)) == decode_step(
            old(cache)@,
            layer,
            path@,
            file_bytes(file),
        ),
        needs_file(old(cache)@, layer, path@) ==> match picture {
            Some(decoded) => decoded.rgba@.len() == 4 * decoded.width * decoded.height,
            None => true,
        },
{
    let want = layer_to_variant(layer);
    match cache.get_variant(want, &path) {
        Some(found) => {
            return Some(found);
        },
        None => {},
    }
    match want {
        DecodeVariant::RemoveBackground => {
            match cache.get_variant(DecodeVariant::Raw, &path) {
                Some(raw) => {
                    return derive_processed(cache, path, &raw);
                },
                None => {},
            }
        },
        DecodeVariant::Raw => {},
    }
    let bytes = match file {
        Some(bytes) => bytes,
        None => {
            return None;
        },
    };
    match decode_image(&bytes) {
        Some(decoded) => {
            let raw = cache.insert_variant(
                DecodeVariant::Raw,
                path.clone(),
                decoded.rgba,
                decoded.width,
                decoded.height,
            );
            let processed = derive_processed(cache, path, &raw);
            match want {
                DecodeVariant::Raw => Some(raw),
                DecodeVariant::RemoveBackground => processed,
            }
        },
        None => None,
    }
}

/// Tells whether making sure of `path` needs the file to be read: it does
/// as long as the raw picture is not cached.
pub fn needs_preload(cache: &BgaDecodeCache, path: &String) -> (needed: bool)
    ensures
        needed == !cache@.contains_key((path@, DecodeVariant::Raw)),
{
    !cache.contains(DecodeVariant::Raw, path)
}

/// Makes sure that both variants of `path` are cached, decoding each only
/// where it is missing. `file` holds the bytes of the file at `path`, or
/// none where the file was not read or could not be.
pub fn ensure_preprocessed(cache: &mut BgaDecodeCache, path: String, file: Option<Vec<u8>>)
    ensures
        final(cache)@ == ensure_step(old(cache)@, path@, file_bytes(file)),
{
    let processed_exists = cache.contains(DecodeVariant::RemoveBackground, &path);
    match cache.get_variant(DecodeVariant::Raw, &path) {
        Some(raw) => {
            if !processed_exists {
                let _ = derive_processed(cache, path, &raw);
            }
        },
        None => {
            let bytes = match file {
                Some(bytes) => bytes,
                None => {
                    return ;
                },
            };
            match decode_image(&bytes) {
                Some(decoded) => {
                    let raw = cache.insert_variant(
                        DecodeVariant::Raw,
                        path.clone(),
                        decoded.rgba,
                        decoded.width,
                        decoded.height,
                    );
                    if !processed_exists {
                        let _ = derive_processed(cache, path, &raw);
                    }
                },
                None => {},
            }
        },
    }
}

/// The name that earlier callers know a decoded picture by.
pub type BgaDecodedImage = DecodedImage;

} // verus!
