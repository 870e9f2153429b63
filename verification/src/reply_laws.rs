//! How operations listen: what a reply does to the operation that asked.

use vstd::prelude::*;

use crate::arena::ArenaView;
use crate::chain::{ChainTxView, CovenantBinding, Outpoint, UnspentView};
use crate::dialogue::{self, CovenantOutputView, HaltView, MovedPosition, Progress, ReplyView, RequestView};
use crate::game::GameView;
use crate::hash::Hash32;
use crate::plan::{EntryArgView, EntryCallView, PlannedInputView, PlannedOutputView, StateView};
use crate::play;
use crate::signing::SignerView;

verus! {

/// Whether the reply at a place reports success.
pub open spec fn says_done(replies: Seq<ReplyView>, k: int) -> bool {
    0 <= k < replies.len() && replies[k] == ReplyView::Done
}

/// Whether the reply at a place gives this unspent output.
pub open spec fn says_utxo(replies: Seq<ReplyView>, k: int, utxo: UnspentView) -> bool {
    0 <= k < replies.len() && replies[k] == ReplyView::Utxo(utxo)
}

/// Whether the reply at a place gives this transaction.
pub open spec fn says_tx(replies: Seq<ReplyView>, k: int, tx: ChainTxView) -> bool {
    0 <= k < replies.len() && replies[k] == ReplyView::Tx(tx)
}

/// Whether the reply at a place gives this covenant output.
pub open spec fn says_output(replies: Seq<ReplyView>, k: int, output: CovenantOutputView) -> bool {
    0 <= k < replies.len() && replies[k] == ReplyView::Output(output)
}

/// Whether the reply at a place gives this identifier.
pub open spec fn says_uid(replies: Seq<ReplyView>, k: int, uid: Hash32) -> bool {
    0 <= k < replies.len() && replies[k] == ReplyView::Uid(uid)
}

/// Whether the reply at a place gives this position.
pub open spec fn says_moved(replies: Seq<ReplyView>, k: int, moved: MovedPosition) -> bool {
    0 <= k < replies.len() && replies[k] == ReplyView::Moved(moved)
}

/// Whether the reply at a place tells of a failure.
pub open spec fn says_failed(replies: Seq<ReplyView>, k: int, text: Seq<char>) -> bool {
    0 <= k < replies.len() && replies[k] == ReplyView::Failed(text)
}

/// The halt that asks for outside work.
pub open spec fn asks(request: RequestView) -> Option<HaltView> {
    Some(HaltView::Need(request))
}

/// The halt that refuses.
pub open spec fn refuses(text: Seq<char>) -> Option<HaltView> {
    Some(HaltView::Refused(text))
}

/// An input that unlocks an actor.
pub open spec fn unlocks(
    actor: Seq<char>,
    state: StateView,
    name: Seq<char>,
    args: Seq<EntryArgView>,
    outpoint: Outpoint,
    utxo: UnspentView,
    sequence: u64,
) -> PlannedInputView {
    PlannedInputView::Actor { actor, state, call: EntryCallView { name, args }, outpoint, utxo, sequence }
}

/// An output that holds an actor, authorized by the first input.
pub open spec fn holds(actor: Seq<char>, state: StateView, covenant_id: Hash32, value: u64) -> PlannedOutputView {
    PlannedOutputView::Actor {
        actor,
        state,
        binding: CovenantBinding { authorizing_input: 0, covenant_id },
        value,
    }
}

/// The signature and the public key of a signer.
pub open spec fn signed_by(signer: SignerView) -> Seq<EntryArgView> {
    seq![EntryArgView::Signature(signer.secret), EntryArgView::Bytes(signer.public_key)]
}

/// Whether it is the player's turn in the game in progress.
pub open spec fn on_turn(a: ArenaView, actor: SignerView) -> bool {
    match a.game {
        Some(g) => {
            ||| g.turn == 0 && actor.player_ref == Some(g.white_player)
            ||| g.turn != 0 && actor.player_ref == Some(g.black_player) && g.white_player != g.black_player
        },
        None => false,
    }
}

/// The reference of the player who is not on turn.
pub open spec fn waiting_player(g: GameView) -> Hash32 {
    if g.turn == 0 {
        g.black_player
    } else {
        g.white_player
    }
}

/// The empty text adds nothing.
pub proof fn empty_text_adds_nothing()
    ensures
        forall|x: Seq<char>| #[trigger] (x + ""@) == x,
        forall|x: Seq<char>| #[trigger] (""@ + x) == x,
{
    reveal_strlit("");
    assert forall|x: Seq<char>| #[trigger] (x + ""@) == x by {
        assert(x + ""@ =~= x);
    }
    assert forall|x: Seq<char>| #[trigger] (""@ + x) == x by {
        assert(""@ + x =~= x);
    }
}

/// A request is settled by a reply of its kind, at its place: success for the artifact and the
/// builder, an output for an actor, a transaction for a plan, a covenant output for a reading, an
/// identifier for an outpoint, a position for a move.
pub proof fn requests_are_settled_by_replies_of_their_kind(request: RequestView, reply: ReplyView)
    ensures
        dialogue::answers(request, reply) <==> {
            ||| request is LoadArtifact && reply is Done
            ||| request is CheckArtifact && reply is Done
            ||| request is StartBuilder && reply is Done
            ||| request is ActorUtxo && reply is Utxo
            ||| request is Build && reply is Tx
            ||| request is ReadOutput && reply is Output
            ||| request is InvocationUid && reply is Uid
            ||| request is ApplyMove && reply is Moved
        },
{
}

/// An operation goes on when its request is settled, is refused when the reply tells of a failure, in
/// the operation's words round the reason, and asks again in every other case.
pub proof fn replies_are_heard_at_their_place(
    replies: Seq<ReplyView>,
    k: int,
    request: RequestView,
    before: Seq<char>,
    after: Seq<char>,
    rest: Progress,
    text: Seq<char>,
)
    requires
        0 <= k,
    ensures
        ({
            let progress = dialogue::ask(replies, k, request, before, after, rest);
            &&& k >= replies.len() ==> progress == Progress::Need(request)
            &&& k < replies.len() && dialogue::answers(request, replies[k]) ==> progress == rest
            &&& says_failed(replies, k, text) ==> progress == Progress::Refused(before + text + after)
            &&& k < replies.len() && !dialogue::answers(request, replies[k]) && !(replies[k] is Failed)
                ==> progress == Progress::Need(request)
        }),
{
}

/// A player may act exactly on the player's turn, and is else told why not.
pub proof fn players_act_on_their_turn(a: ArenaView, actor: SignerView)
    ensures
        ({
            let refusal = play::turn_refusal(a, actor);
            &&& refusal is None <==> on_turn(a, actor)
            &&& a.game is None ==> refusal == Some("missing game"@)
            &&& a.game matches Some(g) ==> {
                let white = actor.player_ref == Some(g.white_player);
                let black = actor.player_ref == Some(g.black_player);
                &&& actor.player_ref is None ==> refusal == Some(actor.name + " missing player ref"@)
                &&& actor.player_ref is Some && !white && !black ==> refusal == Some(
                    actor.name + " is not part of the active game"@,
                )
                &&& (white || black) && !on_turn(a, actor) ==> refusal == Some(
                    "it is not "@ + actor.name + "'s turn"@,
                )
            }
        }),
{
}

} // verus!
