//! Selection of the photo renditions that are forwarded to the
//! download/upload pipeline.

use vstd::prelude::*;
use crate::model::Photo;
use crate::width_allowed;
use crate::is_width_allowed;

verus! {

/// A rendition is retained exactly when its width is in the allow-set.
pub open spec fn photo_allowed(p: Photo) -> bool {
    width_allowed(p.width as int)
}

/// The retained renditions, in their arriving order.
pub open spec fn allowed_photos(ps: Seq<Photo>) -> Seq<Photo> {
    ps.filter(|p: Photo| photo_allowed(p))
}

/// Only renditions whose width is in the allow-set are forwarded: every
/// retained rendition has an allowed width, every rendition with an allowed
/// width is among the retained ones, and no rendition is invented.
pub proof fn lemma_only_allowed_widths_forwarded(ps: Seq<Photo>)
    ensures
        forall|i: int|
            0 <= i < allowed_photos(ps).len() ==> photo_allowed(#[trigger] allowed_photos(ps)[i]),
        forall|i: int|
            0 <= i < ps.len() && photo_allowed(ps[i]) ==> allowed_photos(ps).contains(ps[i]),
        allowed_photos(ps).len() <= ps.len(),
{
    broadcast use vstd::seq_lib::group_filter_ensures;

    assert(allowed_photos(ps) == ps.filter(|p: Photo| photo_allowed(p)));
}

/// Keeps exactly the renditions whose width is in the allow-set, in order.
pub fn filter_photos(photos: &Vec<Photo>) -> (r: Vec<Photo>)
    ensures
        r@ == allowed_photos(photos@),
{
    let mut r: Vec<Photo> = Vec::new();
    let mut i: usize = 0;
    proof {
        reveal(Seq::filter);
        assert(photos@.subrange(0, 0) =~= Seq::<Photo>::empty());
        assert(r@ =~= allowed_photos(photos@.subrange(0, 0)));
    }
    while i < photos.len()
        invariant
            i <= photos.len(),
            r@ == allowed_photos(photos@.subrange(0, i as int)),
        decreases photos.len() - i,
    {
        proof {
            reveal(Seq::filter);
            let sub = photos@.subrange(0, i + 1);
            assert(sub.drop_last() =~= photos@.subrange(0, i as int));
            assert(sub.last() == photos@[i as int]);
        }
        if is_width_allowed(photos[i].width) {
            r.push(photos[i].clone());
        }
        i = i + 1;
    }
    proof {
        assert(photos@.subrange(0, photos@.len() as int) =~= photos@);
    }
    r
}

} // verus!
