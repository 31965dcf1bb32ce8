//! The command handler: which events start an invocation, and what an
//! invocation does next on each answer from the platform.

use vstd::prelude::*;
use vstd::string::*;
use crate::body::{body_text, compose_body};
use crate::model::{ChatEvent, PlatformError, ReplacementMessage, TargetMessage};
use crate::spoiler::{is_transform_of, transform};

verus! {

/// The text that invokes the command.
pub open spec fn trigger_text() -> Seq<char> {
    seq!['!', 's', 'p', 'o', 'i', 'l', 'm', 'e']
}

/// The channel and message that `event` asks to spoil: present exactly when
/// its text is the trigger, with nothing before or after it, and it replies
/// to a message whose id is known.
pub open spec fn trigger_target_spec(event: ChatEvent) -> Option<(u64, u64)> {
    if event.content@ == trigger_text() {
        match event.reply {
            Some(reference) => match reference.message_id {
                Some(message_id) => Some((reference.channel_id, message_id)),
                None => None,
            },
            None => None,
        }
    } else {
        None
    }
}

/// Decides whether `event` invokes the command, and on which message.
pub fn trigger_target(event: &ChatEvent) -> (r: Option<(u64, u64)>)
    ensures
        r == trigger_target_spec(*event),
{
    proof {
        reveal_strlit("!spoilme");
        assert("!spoilme"@ =~= trigger_text());
    }
    let trigger = String::from_str("!spoilme");
    if event.content == trigger {
        match &event.reply {
            Some(reference) => match reference.message_id {
                Some(message_id) => Some((reference.channel_id, message_id)),
                None => None,
            },
            None => None,
        }
    } else {
        None
    }
}

/// Where one invocation stands. It waits in `Fetching`, `Transforming`,
/// `Publishing` and `Deleting` for the platform's answer; `Done` and `Failed`
/// are final. Recognising the trigger and composing the body send no
/// request, so an invocation passes through them within one step and never
/// waits there.
#[derive(Clone, Debug, PartialEq, Eq)]
pub enum Invocation {
    /// No command seen yet.
    Idle,
    /// The target message was asked for.
    Fetching { channel_id: u64, message_id: u64 },
    /// The bytes of the first attachments are at hand, in order, and the
    /// next attachment was asked for.
    Transforming { target: TargetMessage, downloads: Vec<Vec<u8>> },
    /// The replacement was handed over for publication.
    Publishing { channel_id: u64, message_id: u64 },
    /// The replacement is posted and the target's removal was asked for.
    Deleting { channel_id: u64, message_id: u64 },
    /// The replacement is posted.
    Done,
    /// Nothing was posted and nothing removed.
    Failed,
}

/// What the platform reports to an invocation.
#[derive(Debug, PartialEq, Eq)]
pub enum Event {
    Created(ChatEvent),
    Fetched(Result<TargetMessage, PlatformError>),
    Downloaded(Result<Vec<u8>, PlatformError>),
    Published(Result<(), PlatformError>),
    Deleted(Result<(), PlatformError>),
}

/// What an invocation asks of its host.
#[derive(Clone, Debug, PartialEq, Eq)]
pub enum Action {
    /// Nothing to do, and nothing to log.
    Nothing,
    /// Fetch a message.
    Fetch { channel_id: u64, message_id: u64 },
    /// Download an attachment's bytes.
    Download { url: String },
    /// Publish the replacement in a channel.
    Publish { channel_id: u64, message: ReplacementMessage },
    /// Delete a message.
    Delete { channel_id: u64, message_id: u64 },
    /// Write a failure to the operator's log; never to the channel.
    Report(PlatformError),
}

impl Action {
    /// Whether carrying out the action sends a request over the network.
    pub open spec fn is_request(self) -> bool {
        !(self is Nothing) && !(self is Report)
    }
}

impl Invocation {
    /// While attachments are being transformed, the target is well formed
    /// and one download at least is still to come.
    pub open spec fn wf(self) -> bool {
        match self {
            Invocation::Transforming { target, downloads } => {
                &&& target.wf()
                &&& downloads.len() < target.attachments.len()
            },
            _ => true,
        }
    }

    /// Whether the invocation has ended.
    pub open spec fn is_final(self) -> bool {
        self is Done || self is Failed
    }

    /// A fresh invocation.
    pub fn new() -> (r: Invocation)
        ensures
            r == Invocation::Idle,
            r.wf(),
    {
        Invocation::Idle
    }
}

impl Event {
    /// A fetched message must be well formed.
    pub open spec fn wf(self) -> bool {
        match self {
            Event::Fetched(Ok(target)) => target.wf(),
            _ => true,
        }
    }
}

/// What follows once `downloads` holds the bytes of the first attachments
/// of `target`. While some are missing, the invocation keeps target and
/// bytes and asks for the next download. Once all are there, it hands over
/// the replacement, with the composed body and the transform of all
/// attachments, for the target's channel, and remembers which message to
/// delete.
pub open spec fn advances(
    target: TargetMessage,
    downloads: Seq<Vec<u8>>,
    post: Invocation,
    act: Action,
) -> bool {
    if downloads.len() < target.attachments.len() {
        &&& post matches Invocation::Transforming { target: t, downloads: d }
        &&& t == target
        &&& d@ == downloads
        &&& act matches Action::Download { url }
        &&& url@ == target.attachments[downloads.len() as int].url@
    } else {
        &&& post == (Invocation::Publishing {
            channel_id: target.channel_id,
            message_id: target.message_id,
        })
        &&& act matches Action::Publish { channel_id, message }
        &&& channel_id == target.channel_id
        &&& message.body@ == body_text(target)
        &&& is_transform_of(message.attachments@, target.attachments@, downloads)
    }
}

/// The transition relation: from `pre`, on `event`, to `post` with `act`.
///
/// An event that the state does not wait for changes nothing and asks for
/// nothing; so does every event in a final state.
pub open spec fn step_spec(pre: Invocation, event: Event, post: Invocation, act: Action) -> bool {
    match (pre, event) {
        (Invocation::Idle, Event::Created(e)) => match trigger_target_spec(e) {
            Some((channel_id, message_id)) => {
                &&& post == (Invocation::Fetching { channel_id, message_id })
                &&& act == (Action::Fetch { channel_id, message_id })
            },
            None => post == Invocation::Idle && act == Action::Nothing,
        },
        (Invocation::Fetching { .. }, Event::Fetched(Ok(target))) => advances(
            target,
            Seq::<Vec<u8>>::empty(),
            post,
            act,
        ),
        (Invocation::Fetching { .. }, Event::Fetched(Err(e))) => {
            post == Invocation::Failed && act == Action::Report(e)
        },
        (Invocation::Transforming { target, downloads }, Event::Downloaded(Ok(data))) => advances(
            target,
            downloads@.push(data),
            post,
            act,
        ),
        (Invocation::Transforming { .. }, Event::Downloaded(Err(e))) => {
            post == Invocation::Failed && act == Action::Report(e)
        },
        (Invocation::Publishing { channel_id, message_id }, Event::Published(Ok(_))) => {
            &&& post == (Invocation::Deleting { channel_id, message_id })
            &&& act == (Action::Delete { channel_id, message_id })
        },
        (Invocation::Publishing { .. }, Event::Published(Err(e))) => {
            post == Invocation::Failed && act == Action::Report(e)
        },
        (Invocation::Deleting { .. }, Event::Deleted(Ok(_))) => {
            post == Invocation::Done && act == Action::Nothing
        },
        (Invocation::Deleting { .. }, Event::Deleted(Err(e))) => {
            post == Invocation::Done && act == Action::Report(e)
        },
        _ => post == pre && act == Action::Nothing,
    }
}

/// An event whose text is not exactly the trigger, or that replies to no
/// known message, leaves an idle invocation idle and sends no request.
pub proof fn lemma_non_trigger_is_ignored(event: ChatEvent, post: Invocation, act: Action)
    requires
        event.content@ != trigger_text() || event.reply is None
            || event.reply->0.message_id is None,
        step_spec(Invocation::Idle, Event::Created(event), post, act),
    ensures
        post == Invocation::Idle,
        act == Action::Nothing,
        !act.is_request(),
{
}

/// An event with exactly the trigger as text that replies to a known message
/// starts an invocation by fetching that message.
pub proof fn lemma_trigger_fetches(
    event: ChatEvent,
    channel_id: u64,
    message_id: u64,
    post: Invocation,
    act: Action,
)
    requires
        event.content@ == trigger_text(),
        event.reply == Some(
            crate::model::ReplyReference { channel_id, message_id: Some(message_id) },
        ),
        step_spec(Invocation::Idle, Event::Created(event), post, act),
    ensures
        post == (Invocation::Fetching { channel_id, message_id }),
        act == (Action::Fetch { channel_id, message_id }),
{
}

/// A step that publishes hands over the transform of all attachments of the
/// target: one copy for each, in the target's order, under the marked name
/// and with the bytes as they were downloaded, in the order in which they
/// were asked for. A target without attachments is published with none.
pub proof fn lemma_publish_carries_every_attachment(
    pre: Invocation,
    event: Event,
    post: Invocation,
    act: Action,
)
    requires
        step_spec(pre, event, post, act),
        act is Publish,
    ensures
        post is Publishing,
        match (pre, event) {
            (Invocation::Fetching { .. }, Event::Fetched(Ok(target))) => {
                &&& target.attachments.len() == 0
                &&& act->message.attachments.len() == 0
                &&& act->message.body@ == body_text(target)
            },
            (Invocation::Transforming { target, downloads }, Event::Downloaded(Ok(data))) => {
                &&& act->message.attachments.len() == target.attachments.len()
                &&& is_transform_of(
                    act->message.attachments@,
                    target.attachments@,
                    downloads@.push(data),
                )
                &&& act->message.body@ == body_text(target)
            },
            _ => false,
        },
{
}

/// While attachments are still missing, downloaded bytes are kept as they
/// came, behind those kept before, and the next attachment is asked for:
/// nothing is published yet.
pub proof fn lemma_download_is_kept(
    target: TargetMessage,
    downloads: Vec<Vec<u8>>,
    data: Vec<u8>,
    post: Invocation,
    act: Action,
)
    requires
        downloads.len() + 1 < target.attachments.len(),
        step_spec(
            Invocation::Transforming { target, downloads },
            Event::Downloaded(Ok(data)),
            post,
            act,
        ),
    ensures
        post is Transforming,
        post->target == target,
        post->downloads@ == downloads@.push(data),
        act is Download,
        act->url@ == target.attachments[downloads.len() + 1].url@,
{
}

/// A failed fetch, download or publication ends the invocation as failed:
/// the failure is reported and no request is sent, so nothing is posted and
/// nothing deleted.
pub proof fn lemma_failure_aborts(
    pre: Invocation,
    event: Event,
    error: PlatformError,
    post: Invocation,
    act: Action,
)
    requires
        (pre is Fetching && event == Event::Fetched(Err(error))) || (pre is Transforming && event
            == Event::Downloaded(Err(error))) || (pre is Publishing && event == Event::Published(
            Err(error),
        )),
        step_spec(pre, event, post, act),
    ensures
        post == Invocation::Failed,
        act == Action::Report(error),
        !act.is_request(),
{
}

/// A deletion is asked for only in answer to a successful publication, and
/// then for the target message itself.
pub proof fn lemma_delete_follows_publish(
    pre: Invocation,
    event: Event,
    post: Invocation,
    act: Action,
)
    requires
        step_spec(pre, event, post, act),
        act is Delete,
    ensures
        pre is Publishing,
        event is Published,
        event->Published_0 is Ok,
        act->Delete_channel_id == pre->Publishing_channel_id,
        act->Delete_message_id == pre->Publishing_message_id,
        post is Deleting,
{
}

/// A failed deletion is reported and ends the invocation as done: nothing is
/// asked again and the replacement stays.
pub proof fn lemma_delete_failure_is_accepted(
    pre: Invocation,
    error: PlatformError,
    post: Invocation,
    act: Action,
)
    requires
        pre is Deleting,
        step_spec(pre, Event::Deleted(Err(error)), post, act),
    ensures
        post == Invocation::Done,
        act == Action::Report(error),
        !act.is_request(),
{
}

/// An invocation that has ended stays as it is and asks for nothing,
/// whatever is reported to it.
pub proof fn lemma_final_is_silent(pre: Invocation, event: Event, post: Invocation, act: Action)
    requires
        pre.is_final(),
        step_spec(pre, event, post, act),
    ensures
        post == pre,
        act == Action::Nothing,
{
}

/// No step leads back to the idle state from any other.
pub proof fn lemma_never_idle_again(pre: Invocation, event: Event, post: Invocation, act: Action)
    requires
        !(pre is Idle),
        step_spec(pre, event, post, act),
    ensures
        !(post is Idle),
{
}

/// Continues with `target` once `downloads` holds the bytes of its first
/// attachments: asks for the next download, or transforms and publishes.
fn advance(target: TargetMessage, downloads: Vec<Vec<u8>>) -> (r: (Invocation, Action))
    requires
        target.wf(),
        downloads.len() <= target.attachments.len(),
    ensures
        advances(target, downloads@, r.0, r.1),
        r.0.wf(),
{
    if downloads.len() < target.attachments.len() {
        let url = target.attachments[downloads.len()].url.clone();
        (Invocation::Transforming { target, downloads }, Action::Download { url })
    } else {
        let attachments = transform(&target.attachments, downloads);
        let body = compose_body(&target);
        let channel_id = target.channel_id;
        let message_id = target.message_id;
        (
            Invocation::Publishing { channel_id, message_id },
            Action::Publish { channel_id, message: ReplacementMessage { body, attachments } },
        )
    }
}

/// Takes one invocation one step further: from its state and what the
/// platform reported, to its next state and what the host is to do.
pub fn step(state: Invocation, event: Event) -> (r: (Invocation, Action))
    requires
        state.wf(),
        event.wf(),
    ensures
        step_spec(state, event, r.0, r.1),
        r.0.wf(),
{
    match state {
        Invocation::Idle => match event {
            Event::Created(e) => match trigger_target(&e) {
                Some((channel_id, message_id)) => (
                    Invocation::Fetching { channel_id, message_id },
                    Action::Fetch { channel_id, message_id },
                ),
                None => (Invocation::Idle, Action::Nothing),
            },
            _ => (Invocation::Idle, Action::Nothing),
        },
        Invocation::Fetching { channel_id, message_id } => match event {
            Event::Fetched(Ok(target)) => advance(target, Vec::new()),
            Event::Fetched(Err(e)) => (Invocation::Failed, Action::Report(e)),
            _ => (Invocation::Fetching { channel_id, message_id }, Action::Nothing),
        },
        Invocation::Transforming { target, downloads } => match event {
            Event::Downloaded(Ok(data)) => {
                let mut downloads = downloads;
                downloads.push(data);
                advance(target, downloads)
            },
            Event::Downloaded(Err(e)) => (Invocation::Failed, Action::Report(e)),
            _ => (Invocation::Transforming { target, downloads }, Action::Nothing),
        },
        Invocation::Publishing { channel_id, message_id } => match event {
            Event::Published(Ok(_)) => (
                Invocation::Deleting { channel_id, message_id },
                Action::Delete { channel_id, message_id },
            ),
            Event::Published(Err(e)) => (Invocation::Failed, Action::Report(e)),
            _ => (Invocation::Publishing { channel_id, message_id }, Action::Nothing),
        },
        Invocation::Deleting { channel_id, message_id } => match event {
            Event::Deleted(Ok(_)) => (Invocation::Done, Action::Nothing),
            Event::Deleted(Err(e)) => (Invocation::Done, Action::Report(e)),
            _ => (Invocation::Deleting { channel_id, message_id }, Action::Nothing),
        },
        Invocation::Done => (Invocation::Done, Action::Nothing),
        Invocation::Failed => (Invocation::Failed, Action::Nothing),
    }
}

} // verus!
