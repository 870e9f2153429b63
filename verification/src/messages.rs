//! Messages between players, and the mailboxes that hold them.

use vstd::prelude::*;

use crate::moves::{MoveSpec, WorkerKind};
use crate::names::NameMap;
use crate::status::GameResult;

verus! {

/// What a message says.
#[derive(Clone, Debug, PartialEq, Eq)]
pub enum OffchainMessageKind {
    GameInvite { proposed_white: String, proposed_black: String },
    InviteAccepted { white: String, black: String },
    GameStarted { white: String, black: String },
    MoveNotice { actor: String, worker: WorkerKind, move_label: String, mv: MoveSpec },
    DrawOffered { actor: String },
    DrawClaimed { actor: String },
    DrawAccepted { actor: String },
    TimeoutClaimAvailable { result: GameResult, worker: WorkerKind, move_label: String },
    SettlementRequest { result: GameResult },
    SettlementNotice { result: GameResult },
}

/// A message from one player to another, or from the arena.
#[derive(Clone, Debug, PartialEq, Eq)]
pub struct OffchainMessage {
    pub from: String,
    pub to: String,
    pub kind: OffchainMessageKind,
}

/// The content of what a message says.
pub ghost enum MessageKindView {
    GameInvite { proposed_white: Seq<char>, proposed_black: Seq<char> },
    InviteAccepted { white: Seq<char>, black: Seq<char> },
    GameStarted { white: Seq<char>, black: Seq<char> },
    MoveNotice { actor: Seq<char>, worker: WorkerKind, move_label: Seq<char>, mv: MoveSpec },
    DrawOffered { actor: Seq<char> },
    DrawClaimed { actor: Seq<char> },
    DrawAccepted { actor: Seq<char> },
    TimeoutClaimAvailable { result: GameResult, worker: WorkerKind, move_label: Seq<char> },
    SettlementRequest { result: GameResult },
    SettlementNotice { result: GameResult },
}

impl View for OffchainMessageKind {
    type V = MessageKindView;

    open spec fn view(&self) -> MessageKindView {
        match self {
            OffchainMessageKind::GameInvite { proposed_white, proposed_black } => MessageKindView::GameInvite {
                proposed_white: proposed_white@,
                proposed_black: proposed_black@,
            },
            OffchainMessageKind::InviteAccepted { white, black } => MessageKindView::InviteAccepted {
                white: white@,
                black: black@,
            },
            OffchainMessageKind::GameStarted { white, black } => MessageKindView::GameStarted {
                white: white@,
                black: black@,
            },
            OffchainMessageKind::MoveNotice { actor, worker, move_label, mv } => MessageKindView::MoveNotice {
                actor: actor@,
                worker: *worker,
                move_label: move_label@,
                mv: *mv,
            },
            OffchainMessageKind::DrawOffered { actor } => MessageKindView::DrawOffered { actor: actor@ },
            OffchainMessageKind::DrawClaimed { actor } => MessageKindView::DrawClaimed { actor: actor@ },
            OffchainMessageKind::DrawAccepted { actor } => MessageKindView::DrawAccepted { actor: actor@ },
            OffchainMessageKind::TimeoutClaimAvailable { result, worker, move_label } => MessageKindView::TimeoutClaimAvailable {
                result: *result,
                worker: *worker,
                move_label: move_label@,
            },
            OffchainMessageKind::SettlementRequest { result } => MessageKindView::SettlementRequest {
                result: *result,
            },
            OffchainMessageKind::SettlementNotice { result } => MessageKindView::SettlementNotice {
                result: *result,
            },
        }
    }
}

/// The content of a message.
pub ghost struct MessageView {
    pub from: Seq<char>,
    pub to: Seq<char>,
    pub kind: MessageKindView,
}

impl View for OffchainMessage {
    type V = MessageView;

    open spec fn view(&self) -> MessageView {
        MessageView { from: self.from@, to: self.to@, kind: self.kind@ }
    }
}

/// The contents of messages.
pub open spec fn message_views(messages: Seq<OffchainMessage>) -> Seq<MessageView> {
    messages.map_values(|m: OffchainMessage| m@)
}

/// The mailboxes of players, by name: messages in the order in which they came.
pub type Mailboxes = Map<Seq<char>, Seq<MessageView>>;

/// The contents of the mailboxes.
pub open spec fn mailbox_views(boxes: NameMap<Vec<OffchainMessage>>) -> Mailboxes {
    boxes@.map_values(|v: Vec<OffchainMessage>| message_views(v@))
}

/// The messages that wait for a name.
pub open spec fn waiting(boxes: Mailboxes, name: Seq<char>) -> Seq<MessageView> {
    if boxes.contains_key(name) {
        boxes[name]
    } else {
        Seq::empty()
    }
}

/// The mailboxes after one more message.
pub open spec fn delivered(boxes: Mailboxes, message: MessageView) -> Mailboxes {
    boxes.insert(message.to, waiting(boxes, message.to).push(message))
}

/// Delivers a message to its recipient.
pub fn deliver(boxes: &mut NameMap<Vec<OffchainMessage>>, message: OffchainMessage)
    requires
        old(boxes).wf(),
    ensures
        final(boxes).wf(),
        mailbox_views(*final(boxes)) == delivered(mailbox_views(*old(boxes)), message@),
{
    let ghost before = *boxes;
    let name: String = message.to.clone();
    let mut letters: Vec<OffchainMessage> = match boxes.remove(&name) {
        Some(letters) => letters,
        None => Vec::new(),
    };
    let ghost earlier = letters@;
    letters.push(message);
    proof {
        assert(message_views(letters@) =~= message_views(earlier).push(message@));
        assert(message_views(earlier) =~= waiting(mailbox_views(before), name@));
    }
    boxes.insert(name, letters);
    assert(mailbox_views(*boxes) =~= delivered(mailbox_views(before), message@));
}

/// Takes all messages that wait for a name.
pub fn drain(
    boxes: &mut NameMap<Vec<OffchainMessage>>,
    name: &String,
) -> (letters: Vec<OffchainMessage>)
    requires
        old(boxes).wf(),
    ensures
        final(boxes).wf(),
        message_views(letters@) == waiting(mailbox_views(*old(boxes)), name@),
        mailbox_views(*final(boxes)) == mailbox_views(*old(boxes)).remove(name@),
{
    let ghost before = *boxes;
    let letters: Vec<OffchainMessage> = match boxes.remove(name) {
        Some(letters) => letters,
        None => Vec::new(),
    };
    assert(mailbox_views(*boxes) =~= mailbox_views(before).remove(name@));
    assert(message_views(letters@) =~= waiting(mailbox_views(before), name@));
    letters
}

/// What was delivered to a name comes out in the order of delivery, and leaves nothing behind.
pub proof fn delivered_messages_wait_in_order(
    boxes: Mailboxes,
    first: MessageView,
    second: MessageView,
)
    requires
        first.to == second.to,
    ensures
        waiting(delivered(delivered(boxes, first), second), first.to) == waiting(boxes, first.to).push(
            first,
        ).push(second),
        waiting(boxes.remove(first.to), first.to) == Seq::<MessageView>::empty(),
{
}

/// A delivery touches no mailbox but the recipient's, and draining none but the one drained.
pub proof fn mailboxes_are_separate(boxes: Mailboxes, message: MessageView, other: Seq<char>)
    requires
        other != message.to,
    ensures
        waiting(delivered(boxes, message), other) == waiting(boxes, other),
        waiting(boxes.remove(message.to), other) == waiting(boxes, other),
{
}

} // verus!
