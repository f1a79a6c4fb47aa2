//! Commands: what a podcast actor does when a note tells it to read its
//! feed anew or to send its latest episode.
//!
//! The inbox finds the command ([`crate::inbox::InboxStep::Command`]). The
//! server then asks [`command_started`] what to do, does it, and hands the
//! result to the function that the step names, until nothing is left.

use vstd::prelude::*;
use vstd::string::*;
use crate::activity::{Actor, Create};
use crate::dbif::{Database, HydraError};
use crate::delivery::{ap_block_send_episode_note, ap_block_send_note, is_delivery, Delivery};
use crate::inbox::Command;
use crate::notes::{is_episode_create, is_note_create, iso8601_text};
use crate::podcastindex::PIEpisodes;

verus! {

broadcast use vstd::string::group_string_axioms;

/// What the server does next for a command.
#[derive(Debug)]
pub enum CommandStep {
    /// Nothing is left to do.
    Done,
    /// Ask the hub to read the feed of `podcast_guid` anew; then, whatever
    /// came of it, go on with [`command_rescanned`].
    Rescan { podcast_guid: u64 },
    /// Fetch the profile of the sender at `actor_url` and hand the result
    /// to [`command_sender_fetched`].
    FetchSender { actor_url: String },
    /// Ask the index for the episodes of `podcast_guid` and hand the
    /// result, with `inbox_url`, to [`command_episodes_fetched`].
    FetchEpisodes { podcast_guid: u64, inbox_url: String },
    /// Deliver the note; nothing is left to do after that.
    Send(Delivery<Create>),
}

/// Whether `step` asks for the profile of `sender`, or ends the command
/// where there is no sender to answer.
pub open spec fn answers_sender(step: CommandStep, sender: Option<String>) -> bool {
    match sender {
        Some(actor) => step matches CommandStep::FetchSender { actor_url } && actor_url@
            == actor@,
        None => step is Done,
    }
}

/// The sender's profile is to be fetched, where there is a sender.
fn fetch_sender(sender: &Option<String>) -> (step: CommandStep)
    ensures
        answers_sender(step, *sender),
{
    match sender {
        Some(actor) => CommandStep::FetchSender { actor_url: actor.clone() },
        None => CommandStep::Done,
    }
}

/// Begins a command: a rescan starts with the hub, the latest episode
/// with the sender that it goes to, and nothing is done for any other
/// text.
pub fn command_started(podcast_guid: u64, command: Command, sender: &Option<String>) -> (step:
    CommandStep)
    ensures
        match command {
            Command::Rescan => step matches CommandStep::Rescan { podcast_guid: asked } && asked
                == podcast_guid,
            Command::Latest => answers_sender(step, *sender),
            Command::Unsupported => step is Done,
        },
{
    match command {
        Command::Rescan => CommandStep::Rescan { podcast_guid },
        Command::Latest => fetch_sender(sender),
        Command::Unsupported => CommandStep::Done,
    }
}

/// Goes on after the hub was asked: the sender gets an answer, whatever
/// the hub said.
pub fn command_rescanned(sender: &Option<String>) -> (step: CommandStep)
    ensures
        answers_sender(step, *sender),
{
    fetch_sender(sender)
}

/// Whether `step` delivers what `delivery` prepared, or ends the command
/// where nothing could be prepared.
pub open spec fn sends(step: CommandStep, delivery: Result<Delivery<Create>, HydraError>) -> bool {
    match delivery {
        Ok(ready) => step matches CommandStep::Send(sent) && sent == ready,
        Err(_) => step is Done,
    }
}

/// Goes on once the profile of the sender was asked for.
///
/// Without the profile nothing is sent. With it, a rescan is answered
/// with the note `Done.`, in reply to the note that gave the command; for
/// the latest episode the index is asked next.
pub fn command_sender_fetched(
    db: &mut Database,
    podcast_guid: u64,
    command: Command,
    fetched: Result<Actor, HydraError>,
    object_id: String,
    now: u64,
) -> (step: CommandStep)
    ensures
        (fetched is Err || command != Command::Rescan) ==> final(db)@ == old(db)@,
        fetched is Err || command == Command::Unsupported ==> step is Done,
        fetched is Ok && command == Command::Latest ==> (step
            matches CommandStep::FetchEpisodes { podcast_guid: asked, inbox_url } && asked
            == podcast_guid && inbox_url@ == fetched->Ok_0.inbox@),
        fetched is Ok && command == Command::Rescan ==> exists|
            delivery: Result<Delivery<Create>, HydraError>,
        |
            {
                &&& #[trigger] is_delivery(
                    old(db)@,
                    final(db)@,
                    podcast_guid,
                    fetched->Ok_0.inbox@,
                    iso8601_text(now) is Some,
                    delivery,
                )
                &&& sends(step, delivery)
                &&& delivery matches Ok(ready) ==> exists|parent: String|
                    parent@ == object_id@ && #[trigger] is_note_create(
                        ready.activity,
                        podcast_guid,
                        "Done."@,
                        Some(parent),
                        now,
                        iso8601_text(now)->Some_0,
                    )
            },
{
    let sending_actor = match fetched {
        Ok(sending_actor) => sending_actor,
        Err(_) => {
            return CommandStep::Done;
        },
    };
    match command {
        Command::Rescan => {
            let delivery = ap_block_send_note(
                db,
                podcast_guid,
                sending_actor.inbox,
                String::from_str("Done."),
                Some(object_id),
                now,
            );
            let ghost prepared = delivery;
            let step = match delivery {
                Ok(ready) => CommandStep::Send(ready),
                Err(_) => CommandStep::Done,
            };
            assert(sends(step, prepared));
            assert(is_delivery(
                old(db)@,
                db@,
                podcast_guid,
                sending_actor.inbox@,
                iso8601_text(now) is Some,
                prepared,
            ));
            step
        },
        Command::Latest => CommandStep::FetchEpisodes {
            podcast_guid,
            inbox_url: sending_actor.inbox,
        },
        Command::Unsupported => CommandStep::Done,
    }
}

/// Goes on once the index was asked for the episodes: the newest one is
/// sent to the sender as a note that was asked for, in reply to the note
/// that gave the command. Nothing is sent where the index gave no
/// episode.
pub fn command_episodes_fetched(
    db: &mut Database,
    podcast_guid: u64,
    inbox_url: String,
    object_id: String,
    episodes: Result<PIEpisodes, HydraError>,
    now: u64,
) -> (step: CommandStep)
    ensures
        !(episodes matches Ok(known) && known.items.len() > 0) ==> step is Done && final(db)@
            == old(db)@,
        (episodes matches Ok(known) && known.items.len() > 0) ==> exists|
            delivery: Result<Delivery<Create>, HydraError>,
        |
            {
                &&& #[trigger] is_delivery(
                    old(db)@,
                    final(db)@,
                    podcast_guid,
                    inbox_url@,
                    iso8601_text(episodes->Ok_0.items[0].date_published) is Some,
                    delivery,
                )
                &&& sends(step, delivery)
                &&& delivery matches Ok(ready) ==> exists|parent: String|
                    parent@ == object_id@ && #[trigger] is_episode_create(
                        ready.activity,
                        podcast_guid,
                        episodes->Ok_0.items[0],
                        true,
                        Some(parent),
                        now,
                        iso8601_text(episodes->Ok_0.items[0].date_published)->Some_0,
                    )
            },
{
    let known = match episodes {
        Ok(known) => known,
        Err(_) => {
            return CommandStep::Done;
        },
    };
    if known.items.len() == 0 {
        return CommandStep::Done;
    }
    let delivery = ap_block_send_episode_note(
        db,
        podcast_guid,
        &known.items[0],
        inbox_url,
        true,
        Some(object_id),
        now,
    );
    let ghost prepared = delivery;
    let step = match delivery {
        Ok(ready) => CommandStep::Send(ready),
        Err(_) => CommandStep::Done,
    };
    assert(sends(step, prepared));
    assert(is_delivery(
        old(db)@,
        db@,
        podcast_guid,
        inbox_url@,
        iso8601_text(known.items[0].date_published) is Some,
        prepared,
    ));
    step
}

} // verus!
