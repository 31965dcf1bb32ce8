//! Text that the platform's formatting helpers produce, and the calls into them.

use vstd::prelude::*;
use serenity::model::id::UserId;
use serenity::model::Timestamp;
use serenity::utils::FormattedTimestamp;
use serenity::utils::MessageBuilder;

verus! {

/// The character of one decimal digit.
pub open spec fn digit_char(d: nat) -> char {
    if d == 0 {
        '0'
    } else if d == 1 {
        '1'
    } else if d == 2 {
        '2'
    } else if d == 3 {
        '3'
    } else if d == 4 {
        '4'
    } else if d == 5 {
        '5'
    } else if d == 6 {
        '6'
    } else if d == 7 {
        '7'
    } else if d == 8 {
        '8'
    } else {
        '9'
    }
}

/// Decimal digits of `n`, most significant first, without leading zeros.
pub open spec fn decimal(n: nat) -> Seq<char>
    decreases n,
{
    if n < 10 {
        seq![digit_char(n)]
    } else {
        decimal(n / 10).push(digit_char(n % 10))
    }
}

/// Decimal rendering of a signed number: a minus sign before negative ones.
pub open spec fn signed_decimal(i: int) -> Seq<char> {
    if i < 0 {
        seq!['-'] + decimal((-i) as nat)
    } else {
        decimal(i as nat)
    }
}

/// Markup that notifies the user with id `user_id`.
pub open spec fn mention_text(user_id: u64) -> Seq<char> {
    seq!['<', '@'] + decimal(user_id as nat) + seq!['>']
}

/// Markup that each client renders as the time `secs` in its own time zone.
pub open spec fn timestamp_text(secs: i64) -> Seq<char> {
    seq!['<', 't', ':'] + signed_decimal(secs as int) + seq!['>']
}

/// Markup that renders a line of text as a quotation.
pub open spec fn quote_text(content: Seq<char>) -> Seq<char> {
    seq!['>', ' '] + content
}

#[verifier::external_type_specification]
#[verifier::external_body]
pub struct ExMessageBuilder(MessageBuilder);

/// The text a message builder has accumulated so far.
pub uninterp spec fn builder_text(b: MessageBuilder) -> Seq<char>;

/// `MessageBuilder::new`: a builder that holds no text yet.
#[verifier::external_body]
pub(crate) fn builder_new() -> (b: MessageBuilder)
    ensures
        builder_text(b) == Seq::<char>::empty(),
{
    MessageBuilder::new()
}

/// `MessageBuilder::push`: appends `s` as it is to the accumulated text.
#[verifier::external_body]
pub(crate) fn builder_push(b: &mut MessageBuilder, s: &str)
    ensures
        builder_text(*final(b)) == builder_text(*old(b)) + s@,
{
    b.push(s);
}

/// `MessageBuilder::mention` on a user id: appends `<@`, the id in decimal
/// and `>`. The id type cannot hold zero, so zero is left out.
#[verifier::external_body]
pub(crate) fn builder_mention_user(b: &mut MessageBuilder, user_id: u64)
    requires
        user_id != 0,
    ensures
        builder_text(*final(b)) == builder_text(*old(b)) + mention_text(user_id),
{
    b.mention(&UserId::new(user_id));
}

/// `MessageBuilder::push_quote`: appends `> ` and then `s` as it is.
#[verifier::external_body]
pub(crate) fn builder_push_quote(b: &mut MessageBuilder, s: &str)
    ensures
        builder_text(*final(b)) == builder_text(*old(b)) + quote_text(s@),
{
    b.push_quote(s);
}

/// `MessageBuilder::build`: hands out a copy of the accumulated text and
/// leaves the builder as it was.
#[verifier::external_body]
pub(crate) fn builder_build(b: &mut MessageBuilder) -> (r: String)
    ensures
        r@ == builder_text(*old(b)),
        builder_text(*final(b)) == builder_text(*old(b)),
{
    b.build()
}

/// `FormattedTimestamp::from` a timestamp of `secs` seconds, rendered through
/// its `Display`: `<t:`, the seconds in decimal and `>`. Times outside the
/// range of the timestamp type are left out.
#[verifier::external_body]
pub(crate) fn timestamp_markup(secs: i64) -> (r: String)
    requires
        crate::model::valid_unix_seconds(secs),
    ensures
        r@ == timestamp_text(secs),
{
    let ts = Timestamp::from_unix_timestamp(secs).expect("seconds in range");
    FormattedTimestamp::from(ts).to_string()
}

/// `str::starts_with` with a string pattern: whether `prefix` is a prefix of `s`.
#[verifier::external_body]
pub(crate) fn starts_with(s: &str, prefix: &str) -> (r: bool)
    ensures
        r == prefix@.is_prefix_of(s@),
{
    s.starts_with(prefix)
}

/// `str::split_once` at a line feed: the text before the first line feed and
/// the text after it, or nothing where the text holds no line feed.
#[verifier::external_body]
pub(crate) fn split_first_line<'a>(s: &'a str) -> (r: Option<(&'a str, &'a str)>)
    ensures
        match r {
            Some((head, tail)) => s@ == head@ + seq!['\n'] + tail@ && !head@.contains('\n'),
            None => !s@.contains('\n'),
        },
{
    s.split_once('\n')
}

} // verus!
