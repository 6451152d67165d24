use crate::error::GameError;
use crate::games::game::Game;
use crate::types::{Envelope, Outbound, PlayerId};
use rand::Rng;
use vstd::prelude::*;

verus! {

/// Draws an index below `bound` at random.
///
/// Calls `gen_range(0..bound)` of the `rand` crate on its thread-local
/// generator. `gen_range` returns a value inside the range it is given and
/// panics on an empty range, which `bound > 0` rules out. (The generator
/// itself gives up only where the system has no entropy to seed it with,
/// which no argument can rule out.) Two calls may differ, so nothing more
/// is claimed.
#[verifier::external_body]
pub(crate) fn random_index(bound: usize) -> (index: usize)
    requires
        bound > 0,
    ensures
        index < bound,
{
    rand::thread_rng().gen_range(0..bound)
}

/// The text in which a UUID is written: what `Uuid::to_string` of the `uuid`
/// crate returns for the UUID whose 128 bits are `id`.
pub uninterp spec fn uuid_text(id: u128) -> Seq<char>;

/// Writes a player's identity out as text.
///
/// Calls `uuid::Uuid::from_u128` and then `to_string` on the result. The
/// text depends on the 128 bits alone, so the contract gives it a name and
/// claims nothing else of it.
#[verifier::external_body]
pub(crate) fn uuid_to_string(id: u128) -> (text: String)
    ensures
        text@ == uuid_text(id),
{
    uuid::Uuid::from_u128(id).to_string()
}

/// Addresses `message`: to `recipient_id` alone if one is given, to
/// everybody who is connected if none is.
///
/// Fails with `NotFound`, and addresses nothing, if the one recipient is not
/// connected.
pub fn send_json_message<S>(game: &Game<S>, message: &Envelope, recipient_id: Option<PlayerId>) -> (sent:
    Result<Vec<Outbound>, GameError>)
    requires
        game.wf(),
    ensures
        match recipient_id {
            Some(id) => match game@.roster.send(id, *message) {
                Ok(outbound) => sent matches Ok(sent) && sent@ == seq![outbound],
                Err(error) => sent == Err::<Vec<Outbound>, GameError>(error),
            },
            None => sent matches Ok(sent) && sent@ == game@.roster.broadcast(*message),
        },
{
    match recipient_id {
        Some(id) => {
            let outbound = game.send_message(message, id)?;
            let mut sent: Vec<Outbound> = Vec::new();
            sent.push(outbound);
            Ok(sent)
        },
        None => Ok(game.broadcast_message(message)),
    }
}

} // verus!
