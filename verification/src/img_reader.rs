//! The collection of image pairs that a run works on.

use vstd::prelude::*;
use vstd::string::StringExecFns;
use crate::naming::{stem, stem_of};
use crate::raster::{Raster, RasterView};

verus! {

/// Where the labels of the images come from.
#[derive(Debug)]
pub enum LabelType {
    /// A directory of mask images, one per real image.
    Img(String),
    /// The file names of the real images.
    FileName,
    /// A table of labels.
    CSV(String),
}

impl Clone for LabelType {
    fn clone(&self) -> (copy: Self)
        ensures
            copy == *self,
    {
        match self {
            LabelType::Img(path) => LabelType::Img(path.clone()),
            LabelType::FileName => LabelType::FileName,
            LabelType::CSV(path) => LabelType::CSV(path.clone()),
        }
    }
}

/// A collection of named pairs of data and label of any kind.
#[derive(Debug)]
pub struct ImgReaderGeneric<D, L> {
    pub num_of_images: usize,
    pub img_map: Vec<(String, D, L)>,
}

/// The mathematical value of an image pair.
pub struct PairView {
    pub name: Seq<char>,
    pub real: RasterView,
    pub mask: RasterView,
}

/// A real image and its mask, under the file name of the real image.
#[derive(Debug)]
pub struct ImagePair {
    pub name: String,
    pub real: Raster,
    pub mask: Raster,
}

impl View for ImagePair {
    type V = PairView;

    open spec fn view(&self) -> PairView {
        PairView { name: self.name@, real: self.real@, mask: self.mask@ }
    }
}

/// The values of a sequence of image pairs.
pub open spec fn pair_views(pairs: Seq<ImagePair>) -> Seq<PairView> {
    Seq::new(pairs.len(), |i: int| pairs[i]@)
}

/// The image pairs of a run, in the order in which they are processed.
#[derive(Debug)]
pub struct ImgReader {
    num_of_images: usize,
    pub img_map: Vec<ImagePair>,
}

impl ImgReader {
    /// The number of pairs that the collection was made with.
    pub closed spec fn spec_num_of_images(self) -> usize {
        self.num_of_images
    }

    /// The values of the pairs, in their order.
    pub closed spec fn spec_pairs(self) -> Seq<PairView> {
        pair_views(self.img_map@)
    }

    /// A collection of the given pairs.
    pub fn from_pairs(pairs: Vec<ImagePair>) -> (reader: ImgReader)
        ensures
            reader.spec_pairs() == pair_views(pairs@),
            reader.spec_num_of_images() == pairs@.len(),
    {
        ImgReader { num_of_images: pairs.len(), img_map: pairs }
    }

    /// The pairs, in their order.
    pub fn pairs(&self) -> (pairs: &Vec<ImagePair>)
        ensures
            pair_views(pairs@) == self.spec_pairs(),
    {
        &self.img_map
    }

    pub fn get_num_of_images(&self) -> (n: usize)
        ensures
            n == self.spec_num_of_images(),
    {
        self.num_of_images
    }
}

/// A real image for which no mask was found.
#[derive(Debug)]
pub struct PairingError {
    /// The file name of the real image.
    pub image: String,
}

/// The values of named rasters.
pub open spec fn named_views(items: Seq<(String, Raster)>) -> Seq<(Seq<char>, RasterView)> {
    Seq::new(items.len(), |i: int| (items[i].0@, items[i].1@))
}

/// The position of the first raster whose file name has the stem `key`;
/// nothing where there is none.
pub open spec fn position_of(items: Seq<(Seq<char>, RasterView)>, key: Seq<char>) -> Option<int>
    decreases items.len(),
{
    if items.len() == 0 {
        None
    } else if stem(items[0].0) == key {
        Some(0)
    } else {
        match position_of(items.drop_first(), key) {
            Some(k) => Some(k + 1),
            None => None,
        }
    }
}

/// `done` followed by the pairs of a pairing that succeeded; the failure
/// of one that failed.
pub open spec fn after(done: Seq<PairView>, rest: Result<Seq<PairView>, Seq<char>>) -> Result<
    Seq<PairView>,
    Seq<char>,
> {
    match rest {
        Ok(pairs) => Ok(done + pairs),
        Err(name) => Err(name),
    }
}

/// The pairs of the real images with their masks, in the order of the real
/// images: each real image takes the first mask whose file name has the
/// stem of its own and that no earlier image took. The name of the first
/// real image that finds no mask where there is one.
pub open spec fn paired(
    reals: Seq<(Seq<char>, RasterView)>,
    masks: Seq<(Seq<char>, RasterView)>,
) -> Result<Seq<PairView>, Seq<char>>
    decreases reals.len(),
{
    if reals.len() == 0 {
        Ok(Seq::empty())
    } else {
        match position_of(masks, stem(reals[0].0)) {
            None => Err(reals[0].0),
            Some(k) => after(
                seq![PairView { name: reals[0].0, real: reals[0].1, mask: masks[k].1 }],
                paired(reals.drop_first(), masks.remove(k)),
            ),
        }
    }
}

/// The first raster of a stem stands where no earlier one has the stem.
pub proof fn lemma_position_of(items: Seq<(Seq<char>, RasterView)>, key: Seq<char>, i: int)
    requires
        0 <= i <= items.len(),
        forall|k: int| 0 <= k < i ==> stem(items[k].0) != key,
        i == items.len() || stem(items[i].0) == key,
    ensures
        position_of(items, key) == if i == items.len() {
            None
        } else {
            Some(i)
        },
    decreases items.len(),
{
    if i > 0 {
        let rest = items.drop_first();
        assert(forall|k: int| 0 <= k < i - 1 ==> stem(rest[k].0) != key);
        lemma_position_of(rest, key, i - 1);
    }
}

/// The position of the first raster whose file name has the stem `key`.
pub fn find_named(items: &Vec<(String, Raster)>, key: &String) -> (found: Option<usize>)
    ensures
        match found {
            Some(k) => position_of(named_views(items@), key@) == Some(k as int) && k
                < items@.len(),
            None => position_of(named_views(items@), key@) is None,
        },
{
    let mut i: usize = 0;
    while i < items.len()
        invariant
            i <= items@.len(),
            forall|k: int| 0 <= k < i ==> stem(named_views(items@)[k].0) != key@,
        decreases items@.len() - i,
    {
        let candidate = String::from_str(stem_of(items[i].0.as_str()));
        if candidate == *key {
            proof {
                lemma_position_of(named_views(items@), key@, i as int);
            }
            return Some(i);
        }
        i = i + 1;
    }
    proof {
        lemma_position_of(named_views(items@), key@, i as int);
    }
    None
}

impl ImgReader {
    /// Pairs every real image with the mask whose file name has the same
    /// stem. A real image without a mask is an error: an incomplete
    /// collection is not processed. Masks without a real image are left
    /// aside.
    #[verifier::loop_isolation(false)]
    pub fn new(reals: Vec<(String, Raster)>, masks: Vec<(String, Raster)>) -> (made: Result<
        ImgReader,
        PairingError,
    >)
        ensures
            match made {
                Ok(reader) => paired(named_views(reals@), named_views(masks@)) == Ok::<
                    Seq<PairView>,
                    Seq<char>,
                >(reader.spec_pairs()) && reader.spec_num_of_images() == reals@.len(),
                Err(e) => paired(named_views(reals@), named_views(masks@)) == Err::<
                    Seq<PairView>,
                    Seq<char>,
                >(e.image@),
            },
    {
        let ghost goal = paired(named_views(reals@), named_views(masks@));
        let total = reals.len();
        let mut waiting = reals;
        let mut pool = masks;
        let mut pairs: Vec<ImagePair> = Vec::new();
        while waiting.len() > 0
            invariant
                pairs@.len() + waiting@.len() == total,
                goal == after(pair_views(pairs@), paired(named_views(waiting@), named_views(pool@))),
            decreases waiting@.len(),
        {
            let ghost done = pair_views(pairs@);
            let ghost left = named_views(waiting@);
            let ghost masks_left = named_views(pool@);
            let (name, real_image) = waiting.remove(0);
            assert(named_views(waiting@) =~= left.drop_first());
            let key = String::from_str(stem_of(name.as_str()));
            match find_named(&pool, &key) {
                None => {
                    return Err(PairingError { image: name });
                },
                Some(k) => {
                    let (_, mask_image) = pool.remove(k);
                    assert(named_views(pool@) =~= masks_left.remove(k as int));
                    let pair = ImagePair { name, real: real_image, mask: mask_image };
                    pairs.push(pair);
                    proof {
                        let one = seq![
                            PairView {
                                name: left[0].0,
                                real: left[0].1,
                                mask: masks_left[k as int].1,
                            },
                        ];
                        assert(pair_views(pairs@) =~= done + one);
                        let rest = paired(named_views(waiting@), named_views(pool@));
                        match rest {
                            Ok(more) => {
                                assert(done + (one + more) =~= (done + one) + more);
                            },
                            Err(_) => {},
                        }
                    }
                },
            }
        }
        Ok(ImgReader { num_of_images: pairs.len(), img_map: pairs })
    }
}

} // verus!
