//! The spoiler transform: the rename rule and the copy of one attachment.

use vstd::prelude::*;
use vstd::string::*;
use crate::markup::starts_with;
use crate::model::{Attachment, SpoiledAttachment};

verus! {

/// The filename prefix that makes a client hide an attachment until revealed.
pub open spec fn marker() -> Seq<char> {
    seq!['S', 'P', 'O', 'I', 'L', 'E', 'R', '_']
}

/// A filename is spoiler-marked when it starts with the marker.
pub open spec fn is_marked(name: Seq<char>) -> bool {
    marker().is_prefix_of(name)
}

/// The rename rule: a marked name stays, any other gets the marker in front.
pub open spec fn mark_spec(name: Seq<char>) -> Seq<char> {
    if is_marked(name) {
        name
    } else {
        marker() + name
    }
}

/// `spoiled` is what the transform makes of `attachments` and their bytes
/// `downloads`: one copy for each attachment, in the same order, under the
/// marked name and with the bytes as they are.
pub open spec fn is_transform_of(
    spoiled: Seq<SpoiledAttachment>,
    attachments: Seq<Attachment>,
    downloads: Seq<Vec<u8>>,
) -> bool {
    &&& spoiled.len() == attachments.len()
    &&& downloads.len() == attachments.len()
    &&& forall|j: int|
        0 <= j < spoiled.len() ==> {
            &&& (#[trigger] spoiled[j]).filename@ == mark_spec(attachments[j].filename@)
            &&& spoiled[j].data == downloads[j]
        }
}

/// The rename rule always yields a marked name.
pub proof fn lemma_mark_is_marked(name: Seq<char>)
    ensures
        is_marked(mark_spec(name)),
{
    if !is_marked(name) {
        assert((marker() + name).subrange(0, marker().len() as int) =~= marker());
    }
}

/// Renaming twice is the same as renaming once.
pub proof fn lemma_mark_idempotent(name: Seq<char>)
    ensures
        mark_spec(mark_spec(name)) == mark_spec(name),
{
    lemma_mark_is_marked(name);
}

/// Applies the rename rule to `name`.
pub fn mark(name: &str) -> (r: String)
    ensures
        r@ == mark_spec(name@),
        is_marked(r@),
{
    proof {
        reveal_strlit("SPOILER_");
        assert("SPOILER_"@ =~= marker());
        lemma_mark_is_marked(name@);
    }
    if starts_with(name, "SPOILER_") {
        String::from_str(name)
    } else {
        String::from_str("SPOILER_").concat(name)
    }
}

/// Pairs the downloaded bytes of `attachment` with its marked filename.
pub fn spoil(attachment: &Attachment, data: Vec<u8>) -> (r: SpoiledAttachment)
    ensures
        r.filename@ == mark_spec(attachment.filename@),
        r.data == data,
{
    SpoiledAttachment { filename: mark(attachment.filename.as_str()), data }
}

/// The transform: the spoiler copies of `attachments`, whose bytes, in the
/// same order, are `downloads`.
pub fn transform(attachments: &Vec<Attachment>, downloads: Vec<Vec<u8>>) -> (r: Vec<
    SpoiledAttachment,
>)
    requires
        downloads.len() == attachments.len(),
    ensures
        is_transform_of(r@, attachments@, downloads@),
{
    let ghost all = downloads@;
    let mut spoiled: Vec<SpoiledAttachment> = Vec::new();
    for data in it: downloads
        invariant
            it.seq() == all,
            all.len() == attachments.len(),
            spoiled.len() == it.index(),
            forall|j: int|
                0 <= j < spoiled.len() ==> {
                    &&& (#[trigger] spoiled[j]).filename@ == mark_spec(attachments[j].filename@)
                    &&& spoiled[j].data == all[j]
                },
    {
        let copy = spoil(&attachments[spoiled.len()], data);
        spoiled.push(copy);
    }
    spoiled
}

} // verus!
