use vstd::prelude::*;

use crate::entities::{spec_chapter_from_info, Chapter};
use crate::models::ChapterInfo;

verus! {

/// Converts freshly fetched plugin chapters into host records owned by one
/// manga: a direct field copy with the owning manga set.
pub fn chapters_with_manga_id(items: Vec<ChapterInfo>, manga_id: i64) -> (r: Vec<Chapter>)
    ensures
        r@.len() == items@.len(),
        forall|i: int|
            0 <= i < items@.len() ==> r@[i] == (Chapter {
                manga_id,
                ..spec_chapter_from_info(items@[i])
            }),
{
    let mut out: Vec<Chapter> = Vec::new();
    let mut rest = items;
    let ghost all = rest@;
    while rest.len() > 0
        invariant
            out@.len() + rest@.len() == all.len(),
            rest@ =~= all.subrange(out@.len() as int, all.len() as int),
            forall|k: int|
                0 <= k < out@.len() ==> out@[k] == (Chapter {
                    manga_id,
                    ..spec_chapter_from_info(all[k])
                }),
        decreases rest@.len(),
    {
        let ghost done = out@.len() as int;
        let item = rest.remove(0);
        proof {
            assert(item == all[done]);
            assert(rest@ =~= all.subrange(done + 1, all.len() as int));
        }
        let mut chapter = Chapter::from_info(item);
        chapter.manga_id = manga_id;
        out.push(chapter);
    }
    out
}

} // verus!
