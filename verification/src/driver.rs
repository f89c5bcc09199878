//! Driving a session against the store in memory: the rounds of the protocol
//! as the event loop of a front end plays them.

use crate::laws::{is_refresh, law_follow_ups_are_refreshes};
use crate::session::protocol::{Message, ReplyView, RequestView};
use crate::session::state::{App, AppView};
use crate::store::{Store, StoreView};
use crate::time::Timestamp;
use vstd::prelude::*;

verus! {

/// The rest of a round, the store having answered the request of `msg` with
/// `reply` and being left as `served`: the session processes the message
/// with the answer, and the store carries out the effect. Gives the session
/// and the store afterwards and the message to process next.
pub open spec fn round_with(
    app: AppView,
    msg: Message,
    now: Timestamp,
    reply: ReplyView,
    served: StoreView,
) -> (AppView, StoreView, Option<Message>) {
    let (next_app, outcome) = app.step(msg, reply, now);
    (next_app, served.affected(outcome.effect, now), outcome.next)
}

/// One round of the protocol: the session names the request of a message, the
/// store serves and answers it, the session processes the message with the
/// answer, and the store carries out the effect. Gives the session and the
/// store afterwards and the message to process next.
#[verifier::opaque]
pub open spec fn round(app: AppView, store: StoreView, msg: Message, now: Timestamp) -> (
    AppView,
    StoreView,
    Option<Message>,
) {
    let request = app.request(msg, now);
    round_with(app, msg, now, store.answer(request, now), store.after(request, now))
}

/// Whether a round of `msg` may end in `result` on some machine: the store
/// serves the request as [`StoreView::serves`] allows, and the rest of the
/// round follows from its answer.
#[verifier::opaque]
pub open spec fn plays(
    app: AppView,
    store: StoreView,
    msg: Message,
    now: Timestamp,
    result: (AppView, StoreView, Option<Message>),
) -> bool {
    exists|reply: ReplyView, served: StoreView| #[trigger]
        store.serves(app.request(msg, now), now, reply, served) && result == round_with(
            app,
            msg,
            now,
            reply,
            served,
        )
}

/// Whether processing `msg` together with its follow-up may end in `last` on
/// some machine: the round of `msg` is played, and the round of the message
/// that follows from it, which never involves the time zone.
#[verifier::opaque]
pub open spec fn delivers(
    app: AppView,
    store: StoreView,
    msg: Message,
    now: Timestamp,
    last: (AppView, StoreView),
) -> bool {
    exists|mid: (AppView, StoreView, Option<Message>)| #[trigger]
        plays(app, store, msg, now, mid) && last == (match mid.2 {
            Some(follow_up) => {
                let (app2, store2, _) = round(mid.0, mid.1, follow_up, now);
                (app2, store2)
            },
            None => (mid.0, mid.1),
        })
}

/// A message processed together with its follow-up.
pub open spec fn dispatch(app: AppView, store: StoreView, msg: Message, now: Timestamp) -> (
    AppView,
    StoreView,
) {
    let (app1, store1, next) = round(app, store, msg, now);
    match next {
        Some(follow_up) => {
            let (app2, store2, _) = round(app1, store1, follow_up, now);
            (app2, store2)
        },
        None => (app1, store1),
    }
}

/// A sequence of messages, each with the instant at which it arrives,
/// processed in order.
pub open spec fn run(app: AppView, store: StoreView, msgs: Seq<(Message, Timestamp)>) -> (
    AppView,
    StoreView,
)
    decreases msgs.len(),
{
    if msgs.len() == 0 {
        (app, store)
    } else {
        let (before_app, before_store) = run(app, store, msgs.drop_last());
        dispatch(before_app, before_store, msgs.last().0, msgs.last().1)
    }
}

/// Whether serving the request involves the machine's time zone, so that
/// the outcome is not a function of session, store and instant alone.
pub open spec fn reads_the_zone(request: RequestView) -> bool {
    request is LocalTimes || request is SaveEntry
}

/// Whether processing the message involves the machine's time zone: opening
/// and saving the entry editor do.
pub open spec fn edits_times(msg: Message) -> bool {
    msg is EditEntry || msg == Message::SaveEditEntry
}

/// The round of `msg` in this session is a function of session, store and
/// instant alone.
#[verifier::opaque]
pub open spec fn zone_free(app: AppView, msg: Message, now: Timestamp) -> bool {
    !reads_the_zone(app.request(msg, now))
}

/// Only the entry editor involves the machine's time zone.
pub proof fn lemma_zone_free(app: AppView, msg: Message, now: Timestamp)
    ensures
        !edits_times(msg) ==> zone_free(app, msg, now),
{
    reveal(zone_free);
}

/// A round that does not involve the machine's time zone can end in one way
/// only.
pub proof fn law_zone_free_round_is_determined(
    app: AppView,
    store: StoreView,
    msg: Message,
    now: Timestamp,
    result: (AppView, StoreView, Option<Message>),
)
    requires
        zone_free(app, msg, now),
    ensures
        plays(app, store, msg, now, result) <==> result == round(app, store, msg, now),
{
    reveal(round);
    reveal(plays);
    reveal(zone_free);
    let request = app.request(msg, now);
    if result == round(app, store, msg, now) {
        assert(store.serves(request, now, store.answer(request, now), store.after(request, now)));
    }
}

/// What a round asks to be processed next is a refresh on every machine.
pub proof fn lemma_played_round_asks_for_refresh(
    app: AppView,
    store: StoreView,
    msg: Message,
    now: Timestamp,
    result: (AppView, StoreView, Option<Message>),
)
    requires
        plays(app, store, msg, now, result),
    ensures
        match result.2 {
            Some(follow_up) => is_refresh(follow_up) && zone_free(result.0, follow_up, now),
            None => true,
        },
{
    reveal(plays);
    let (reply, served) = choose|reply: ReplyView, served: StoreView| #[trigger]
        store.serves(app.request(msg, now), now, reply, served) && result == round_with(
            app,
            msg,
            now,
            reply,
            served,
        );
    law_follow_ups_are_refreshes(app, msg, reply, now);
    match result.2 {
        Some(follow_up) => {
            lemma_zone_free(result.0, follow_up, now);
        },
        None => {},
    }
}

/// Processing a message that does not involve the machine's time zone can
/// end in one way only.
pub proof fn law_zone_free_delivery_is_determined(
    app: AppView,
    store: StoreView,
    msg: Message,
    now: Timestamp,
    last: (AppView, StoreView),
)
    requires
        !edits_times(msg),
    ensures
        delivers(app, store, msg, now, last) <==> last == dispatch(app, store, msg, now),
{
    reveal(delivers);
    lemma_zone_free(app, msg, now);
    let once = round(app, store, msg, now);
    law_zone_free_round_is_determined(app, store, msg, now, once);
    if delivers(app, store, msg, now, last) {
        let mid = choose|mid: (AppView, StoreView, Option<Message>)| #[trigger]
            plays(app, store, msg, now, mid) && last == (match mid.2 {
                Some(follow_up) => {
                    let (app2, store2, _) = round(mid.0, mid.1, follow_up, now);
                    (app2, store2)
                },
                None => (mid.0, mid.1),
            });
        law_zone_free_round_is_determined(app, store, msg, now, mid);
    }
}

/// Plays one round of the protocol for `msg` at `now` and returns the
/// message to process next.
///
/// The round ends as [`plays`] allows, which leaves open only what depends
/// on the machine's time zone; a round that does not involve it ends as
/// [`round`] says. Identities of the store that were in order stay so.
pub fn play_round(app: &mut App, store: &mut Store, msg: Message, now: &Timestamp) -> (next:
    Option<Message>)
    ensures
        plays(old(app)@, old(store)@, msg, *now, (final(app)@, final(store)@, next)),
        zone_free(old(app)@, msg, *now) ==> (final(app)@, final(store)@, next) == round(
            old(app)@,
            old(store)@,
            msg,
            *now,
        ),
        old(store)@.wf() ==> final(store)@.wf(),
{
    let request = app.request_for(msg, now);
    let reply = store.perform(request, now);
    let ghost served = store@;
    let ghost answer = reply@;
    let outcome = app.update_at(msg, reply, now);
    store.apply(outcome.effect, now);
    proof {
        reveal(plays);
        assert(old(store)@.serves(old(app)@.request(msg, *now), *now, answer, served));
        assert((app@, store@, outcome.next) == round_with(old(app)@, msg, *now, answer, served));
        if zone_free(old(app)@, msg, *now) {
            law_zone_free_round_is_determined(
                old(app)@,
                old(store)@,
                msg,
                *now,
                (app@, store@, outcome.next),
            );
        }
    }
    outcome.next
}

/// Processes `msg` at `now` together with the message that follows from it,
/// after which nothing is left to process.
///
/// The session and the store end as [`delivers`] allows, which leaves open
/// only what depends on the machine's time zone; for every message but
/// those of the entry editor they end as [`dispatch`] says. Identities of
/// the store that were in order stay so.
pub fn deliver(app: &mut App, store: &mut Store, msg: Message, now: &Timestamp)
    ensures
        delivers(old(app)@, old(store)@, msg, *now, (final(app)@, final(store)@)),
        !edits_times(msg) ==> (final(app)@, final(store)@) == dispatch(
            old(app)@,
            old(store)@,
            msg,
            *now,
        ),
        old(store)@.wf() ==> final(store)@.wf(),
{
    let next = play_round(app, store, msg, now);
    let ghost mid = (app@, store@, next);
    proof {
        lemma_played_round_asks_for_refresh(old(app)@, old(store)@, msg, *now, mid);
    }
    match next {
        Some(follow_up) => {
            let _ = play_round(app, store, follow_up, now);
        },
        None => {},
    }
    proof {
        reveal(delivers);
        assert(plays(old(app)@, old(store)@, msg, *now, mid));
        if !edits_times(msg) {
            law_zone_free_delivery_is_determined(
                old(app)@,
                old(store)@,
                msg,
                *now,
                (app@, store@),
            );
        }
    }
}

} // verus!
