//! Text of the replacement message.

use vstd::prelude::*;
use serenity::utils::MessageBuilder;
use crate::markup::{
    builder_build, builder_mention_user, builder_new, builder_push, builder_push_quote,
    builder_text, mention_text, quote_text, split_first_line, timestamp_markup, timestamp_text,
};
use crate::model::TargetMessage;

verus! {

/// What follows the creation time when the message was edited at `edited`:
/// nothing for a message that never was.
pub open spec fn edit_note(edited: Option<i64>) -> Seq<char> {
    match edited {
        Some(e) => seq![' ', '(', 'e', 'd', 'i', 't', 'e', 'd', ' ', 'a', 't', ' ']
            + timestamp_text(e) + seq![')'],
        None => Seq::<char>::empty(),
    }
}

/// The annotation: a mention of the author, then on a line of its own, in
/// italics, the creation time and the edit note.
pub open spec fn header_text(target: TargetMessage) -> Seq<char> {
    mention_text(target.author_id) + seq!['\n', '_', ' '] + timestamp_text(target.created)
        + edit_note(target.edited) + seq!['_']
}

/// `content` with the quotation mark repeated after each line feed, so that
/// every further line is quoted as the first one is.
pub open spec fn requote_lines(content: Seq<char>) -> Seq<char>
    decreases content.len(),
{
    if content.len() == 0 {
        Seq::<char>::empty()
    } else if content[0] == '\n' {
        seq!['\n', '>', ' '] + requote_lines(content.drop_first())
    } else {
        seq![content[0]] + requote_lines(content.drop_first())
    }
}

/// `content` as a quotation: each of its lines behind a quotation mark.
pub open spec fn quoted_text(content: Seq<char>) -> Seq<char> {
    quote_text(requote_lines(content))
}

/// The whole body: the annotation, and under it the quoted content where
/// there is any.
pub open spec fn body_text(target: TargetMessage) -> Seq<char> {
    if target.content@.len() == 0 {
        header_text(target)
    } else {
        header_text(target) + seq!['\n'] + quoted_text(target.content@)
    }
}

/// Text without a line feed is quoted by one mark in front of it.
pub proof fn lemma_requote_single_line(line: Seq<char>)
    requires
        !line.contains('\n'),
    ensures
        requote_lines(line) == line,
        quoted_text(line) == seq!['>', ' '] + line,
    decreases line.len(),
{
    if line.len() > 0 {
        assert(line[0] != '\n');
        let rest = line.drop_first();
        assert forall|i: int| 0 <= i < rest.len() implies rest[i] != '\n' by {
            assert(rest[i] == line[i + 1]);
        }
        lemma_requote_single_line(rest);
        assert(seq![line[0]] + rest =~= line);
    } else {
        assert(requote_lines(line) =~= line);
    }
}

/// Quoting goes through text piece by piece.
pub proof fn lemma_requote_concat(a: Seq<char>, b: Seq<char>)
    ensures
        requote_lines(a + b) == requote_lines(a) + requote_lines(b),
    decreases a.len(),
{
    if a.len() == 0 {
        assert(a + b =~= b);
        assert(requote_lines(a) + requote_lines(b) =~= requote_lines(b));
    } else {
        assert((a + b).drop_first() =~= a.drop_first() + b);
        lemma_requote_concat(a.drop_first(), b);
        assert((a + b)[0] == a[0]);
        assert(requote_lines(a + b) =~= requote_lines(a) + requote_lines(b));
    }
}

/// A first line `head`, a line feed and the text `tail` are quoted as the
/// quoted first line, a line feed and the quoted `tail`.
pub proof fn lemma_quoted_by_lines(head: Seq<char>, tail: Seq<char>)
    requires
        !head.contains('\n'),
    ensures
        quoted_text(head + seq!['\n'] + tail) == quote_text(head) + seq!['\n'] + quoted_text(
            tail,
        ),
{
    lemma_requote_single_line(head);
    lemma_requote_concat(head + seq!['\n'], tail);
    lemma_requote_concat(head, seq!['\n']);
    let feed = seq!['\n'];
    assert(feed.drop_first() =~= Seq::<char>::empty());
    assert(requote_lines(feed) =~= seq!['\n', '>', ' ']) by {
        assert(requote_lines(feed.drop_first()) =~= Seq::<char>::empty());
    }
    assert(quoted_text(head + feed + tail) =~= quote_text(head) + feed + quoted_text(tail));
}

/// A message without text gets the annotation alone: no quotation line.
pub proof fn lemma_empty_content_omits_quote(target: TargetMessage)
    requires
        target.content@.len() == 0,
    ensures
        body_text(target) == header_text(target),
        header_text(target) == mention_text(target.author_id) + seq!['\n', '_', ' ']
            + timestamp_text(target.created) + edit_note(target.edited) + seq!['_'],
{
}

/// The annotation is always the start of the body, and a message with text
/// has the whole of it, quoted, as the end of the body.
pub proof fn lemma_body_keeps_header_and_content(target: TargetMessage)
    ensures
        header_text(target).is_prefix_of(body_text(target)),
        target.content@.len() > 0 ==> body_text(target) == header_text(target) + seq!['\n']
            + quoted_text(target.content@),
        target.content@.len() > 0 && !target.content@.contains('\n') ==> body_text(target)
            == header_text(target) + seq!['\n'] + seq!['>', ' '] + target.content@,
{
    let h = header_text(target);
    if target.content@.len() > 0 {
        let b = h + seq!['\n'] + quoted_text(target.content@);
        assert(b.subrange(0, h.len() as int) =~= h);
        if !target.content@.contains('\n') {
            lemma_requote_single_line(target.content@);
            assert(b =~= h + seq!['\n'] + seq!['>', ' '] + target.content@);
        }
    } else {
        assert(h.subrange(0, h.len() as int) =~= h);
    }
}

/// An edited message's annotation names the edit time between the creation
/// time and the closing underscore; an unedited one's has nothing there.
pub proof fn lemma_edit_note_iff_edited(target: TargetMessage)
    ensures
        target.edited is None ==> edit_note(target.edited).len() == 0 && header_text(target)
            == mention_text(target.author_id) + seq!['\n', '_', ' '] + timestamp_text(
            target.created,
        ) + seq!['_'],
        target.edited is Some ==> edit_note(target.edited).len() > 0 && edit_note(target.edited)
            == seq![' ', '(', 'e', 'd', 'i', 't', 'e', 'd', ' ', 'a', 't', ' '] + timestamp_text(
            target.edited->0,
        ) + seq![')'],
{
    if target.edited is None {
        let a = mention_text(target.author_id) + seq!['\n', '_', ' '] + timestamp_text(
            target.created,
        );
        assert(a + Seq::<char>::empty() =~= a);
    }
}

/// Appends `content` to the builder as a quotation, line by line.
fn push_quoted(b: &mut MessageBuilder, content: &str)
    ensures
        builder_text(*final(b)) == builder_text(*old(b)) + quoted_text(content@),
{
    proof {
        reveal_strlit("\n");
        assert("\n"@ =~= seq!['\n']);
    }
    let mut rest: &str = content;
    loop
        invariant_except_break
            builder_text(*b) + quoted_text(rest@) == builder_text(*old(b)) + quoted_text(
                content@,
            ),
        invariant
            "\n"@ == seq!['\n'],
        ensures
            builder_text(*b) == builder_text(*old(b)) + quoted_text(content@),
        decreases rest@.len(),
    {
        let ghost before = builder_text(*b);
        match split_first_line(rest) {
            Some((head, tail)) => {
                builder_push_quote(b, head);
                builder_push(b, "\n");
                proof {
                    lemma_quoted_by_lines(head@, tail@);
                    assert(builder_text(*b) + quoted_text(tail@) =~= before + quoted_text(rest@));
                }
                rest = tail;
            },
            None => {
                builder_push_quote(b, rest);
                proof {
                    lemma_requote_single_line(rest@);
                }
                break ;
            },
        }
    }
}

/// Composes the body of the replacement for `target`.
pub fn compose_body(target: &TargetMessage) -> (r: String)
    requires
        target.wf(),
    ensures
        r@ == body_text(*target),
{
    proof {
        reveal_strlit("\n_ ");
        reveal_strlit(" (edited at ");
        reveal_strlit(")");
        reveal_strlit("_");
        reveal_strlit("\n");
        assert("\n_ "@ =~= seq!['\n', '_', ' ']);
        assert(" (edited at "@ =~= seq![' ', '(', 'e', 'd', 'i', 't', 'e', 'd', ' ', 'a', 't', ' ']);
        assert(")"@ =~= seq![')']);
        assert("_"@ =~= seq!['_']);
        assert("\n"@ =~= seq!['\n']);
    }
    let mut b = builder_new();
    builder_mention_user(&mut b, target.author_id);
    builder_push(&mut b, "\n_ ");
    let created = timestamp_markup(target.created);
    builder_push(&mut b, created.as_str());
    let ghost before_note = builder_text(b);
    if let Some(e) = target.edited {
        builder_push(&mut b, " (edited at ");
        let edited = timestamp_markup(e);
        builder_push(&mut b, edited.as_str());
        builder_push(&mut b, ")");
    }
    assert(builder_text(b) =~= before_note + edit_note(target.edited));
    builder_push(&mut b, "_");
    assert(builder_text(b) =~= header_text(*target));
    if !target.content.as_str().is_empty() {
        builder_push(&mut b, "\n");
        push_quoted(&mut b, target.content.as_str());
    }
    assert(builder_text(b) =~= body_text(*target));
    builder_build(&mut b)
}

} // verus!
