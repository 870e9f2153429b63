//! The dialogue between an operation and the world.
//!
//! An operation that needs outside work does not perform it. It runs on the replies collected so
//! far and stops with the first request that has none. Whoever drives it carries the request out,
//! adds the reply, and runs the operation again. Nothing changes until every reply is in.

use vstd::prelude::*;

use crate::chain::{ChainTx, ChainTxView, Outpoint, Unspent, UnspentView};
use crate::error::OrchestratorError;
use crate::hash::Hash32;
use crate::moves::MoveSpec;
use crate::plan::{SourceState, StateView, TxPlan, TxPlanView};
use crate::text::join3;

verus! {

/// Outside work that an operation asks for.
pub enum Request {
    /// Load the contract artifact.
    LoadArtifact,
    /// Check the loaded artifact for consistency.
    CheckArtifact,
    /// Start a transaction builder on the artifact.
    StartBuilder,
    /// The unspent output that holds an actor in a state.
    ActorUtxo { actor: &'static str, state: SourceState, value: u64, covenant_id: Hash32 },
    /// Build, sign and execute a transaction.
    Build { plan: TxPlan },
    /// The covenant output of a transaction.
    ReadOutput { tx: ChainTx, index: u32 },
    /// The identifier that spending an outpoint derives under a tag.
    InvocationUid { outpoint: Outpoint, tag: &'static str },
    /// Apply a move under the rules of chess, or under the broader rules of the protocol.
    ApplyMove {
        board: Vec<u8>,
        turn: i64,
        castle_rights: [u8; 4],
        en_passant_idx: i64,
        mv: MoveSpec,
        standard: bool,
    },
}

/// The content of a request.
pub ghost enum RequestView {
    LoadArtifact,
    CheckArtifact,
    StartBuilder,
    ActorUtxo { actor: Seq<char>, state: StateView, value: u64, covenant_id: Hash32 },
    Build { plan: TxPlanView },
    ReadOutput { tx: ChainTxView, index: u32 },
    InvocationUid { outpoint: Outpoint, tag: Seq<char> },
    ApplyMove {
        board: Seq<u8>,
        turn: i64,
        castle_rights: Seq<u8>,
        en_passant_idx: i64,
        mv: MoveSpec,
        standard: bool,
    },
}

impl View for Request {
    type V = RequestView;

    open spec fn view(&self) -> RequestView {
        match self {
            Request::LoadArtifact => RequestView::LoadArtifact,
            Request::CheckArtifact => RequestView::CheckArtifact,
            Request::StartBuilder => RequestView::StartBuilder,
            Request::ActorUtxo { actor, state, value, covenant_id } => RequestView::ActorUtxo {
                actor: actor@,
                state: state@,
                value: *value,
                covenant_id: *covenant_id,
            },
            Request::Build { plan } => RequestView::Build { plan: plan@ },
            Request::ReadOutput { tx, index } => RequestView::ReadOutput { tx: tx@, index: *index },
            Request::InvocationUid { outpoint, tag } => RequestView::InvocationUid {
                outpoint: *outpoint,
                tag: tag@,
            },
            Request::ApplyMove { board, turn, castle_rights, en_passant_idx, mv, standard } => RequestView::ApplyMove {
                board: board@,
                turn: *turn,
                castle_rights: castle_rights@,
                en_passant_idx: *en_passant_idx,
                mv: *mv,
                standard: *standard,
            },
        }
    }
}

/// A covenant output of a transaction.
pub struct CovenantOutput {
    pub covenant_id: Hash32,
    pub outpoint: Outpoint,
    pub utxo: Unspent,
}

/// The content of a covenant output.
pub ghost struct CovenantOutputView {
    pub covenant_id: Hash32,
    pub outpoint: Outpoint,
    pub utxo: UnspentView,
}

impl View for CovenantOutput {
    type V = CovenantOutputView;

    open spec fn view(&self) -> CovenantOutputView {
        CovenantOutputView {
            covenant_id: self.covenant_id,
            outpoint: self.outpoint,
            utxo: self.utxo@,
        }
    }
}

/// The position after a move: board, castling rights, en passant square, and which castle the move
/// was (0 for none).
#[derive(Clone, Copy)]
pub struct MovedPosition {
    pub board: [u8; 64],
    pub castle_rights: [u8; 4],
    pub en_passant_idx: u8,
    pub recent_castle: u8,
}

/// What came back for a request.
pub enum Reply {
    Done,
    Utxo(Unspent),
    Tx(ChainTx),
    Output(CovenantOutput),
    Uid(Hash32),
    Moved(MovedPosition),
    Failed(String),
}

/// The content of a reply.
pub ghost enum ReplyView {
    Done,
    Utxo(UnspentView),
    Tx(ChainTxView),
    Output(CovenantOutputView),
    Uid(Hash32),
    Moved(MovedPosition),
    Failed(Seq<char>),
}

impl View for Reply {
    type V = ReplyView;

    open spec fn view(&self) -> ReplyView {
        match self {
            Reply::Done => ReplyView::Done,
            Reply::Utxo(u) => ReplyView::Utxo(u@),
            Reply::Tx(t) => ReplyView::Tx(t@),
            Reply::Output(o) => ReplyView::Output(o@),
            Reply::Uid(h) => ReplyView::Uid(*h),
            Reply::Moved(m) => ReplyView::Moved(*m),
            Reply::Failed(t) => ReplyView::Failed(t@),
        }
    }
}

/// The contents of replies.
pub open spec fn reply_views(replies: Seq<Reply>) -> Seq<ReplyView> {
    replies.map_values(|r: Reply| r@)
}

/// Why an operation did not finish: it needs outside work, or it was refused.
pub enum Halt {
    Need(Request),
    Refused(OrchestratorError),
}

/// The content of a halt.
pub ghost enum HaltView {
    Need(RequestView),
    Refused(Seq<char>),
}

impl View for Halt {
    type V = HaltView;

    open spec fn view(&self) -> HaltView {
        match self {
            Halt::Need(r) => HaltView::Need(r@),
            Halt::Refused(e) => HaltView::Refused(e.0@),
        }
    }
}

/// Whether a reply is of the kind that the request asks for.
pub open spec fn answers(request: RequestView, reply: ReplyView) -> bool {
    match request {
        RequestView::LoadArtifact => reply is Done,
        RequestView::CheckArtifact => reply is Done,
        RequestView::StartBuilder => reply is Done,
        RequestView::ActorUtxo { .. } => reply is Utxo,
        RequestView::Build { .. } => reply is Tx,
        RequestView::ReadOutput { .. } => reply is Output,
        RequestView::InvocationUid { .. } => reply is Uid,
        RequestView::ApplyMove { .. } => reply is Moved,
    }
}

/// Whether a reply settles a request: it is of the kind asked for, or tells of a failure.
pub fn is_answer(request: &Request, reply: &Reply) -> (settles: bool)
    ensures
        settles == (answers(request@, reply@) || reply@ is Failed),
{
    match (request, reply) {
        (_, Reply::Failed(_)) => true,
        (Request::LoadArtifact, Reply::Done) => true,
        (Request::CheckArtifact, Reply::Done) => true,
        (Request::StartBuilder, Reply::Done) => true,
        (Request::ActorUtxo { .. }, Reply::Utxo(_)) => true,
        (Request::Build { .. }, Reply::Tx(_)) => true,
        (Request::ReadOutput { .. }, Reply::Output(_)) => true,
        (Request::InvocationUid { .. }, Reply::Uid(_)) => true,
        (Request::ApplyMove { .. }, Reply::Moved(_)) => true,
        _ => false,
    }
}

/// How far an operation gets on the replies at hand. `Stuck` is a refusal after `sent`
/// transactions went out.
pub ghost enum Progress {
    Finished,
    Need(RequestView),
    Refused(Seq<char>),
    Stuck(nat, Seq<char>),
}

/// Goes on unless there is a refusal.
pub open spec fn check(refusal: Option<Seq<char>>, rest: Progress) -> Progress {
    match refusal {
        Some(text) => Progress::Refused(text),
        None => rest,
    }
}

/// As `check`, where `sent` transactions already went out.
pub open spec fn check_sent(sent: nat, refusal: Option<Seq<char>>, rest: Progress) -> Progress {
    match refusal {
        Some(text) => Progress::Stuck(sent, text),
        None => rest,
    }
}

/// Goes on with `rest` once `first` is finished.
pub open spec fn followed_by(first: Progress, rest: Progress) -> Progress {
    match first {
        Progress::Finished => rest,
        other => other,
    }
}

/// How an operation that got this far halts, if it does.
pub open spec fn halted(progress: Progress) -> Option<HaltView> {
    match progress {
        Progress::Finished => None,
        Progress::Need(request) => Some(HaltView::Need(request)),
        Progress::Refused(text) => Some(HaltView::Refused(text)),
        Progress::Stuck(_, text) => Some(HaltView::Refused(text)),
    }
}

/// How an operation with this outcome halted, if it did.
pub open spec fn halt_of<T>(outcome: Result<T, Halt>) -> Option<HaltView> {
    match outcome {
        Ok(_) => None,
        Err(halt) => Some(halt@),
    }
}

/// A refusal with a fixed text.
pub fn stop(text: &str) -> (halt: Halt)
    ensures
        halt@ == HaltView::Refused(text@),
{
    Halt::Refused(OrchestratorError(text.to_owned()))
}

/// What the reply at place `k` says to a request: it is answered, it failed with a text, or it is
/// still open. A reply of another kind answers nothing.
pub open spec fn heard(
    replies: Seq<ReplyView>,
    k: int,
    request: RequestView,
) -> Result<(), Option<Seq<char>>> {
    if k < replies.len() {
        match replies[k] {
            ReplyView::Failed(text) => Err(Some(text)),
            reply => if answers(request, reply) {
                Ok(())
            } else {
                Err(None)
            },
        }
    } else {
        Err(None)
    }
}

/// Goes on once the request is answered by the reply at place `k`; refuses with the failure
/// wrapped in `before` and `after`.
pub open spec fn ask(
    replies: Seq<ReplyView>,
    k: int,
    request: RequestView,
    before: Seq<char>,
    after: Seq<char>,
    rest: Progress,
) -> Progress {
    match heard(replies, k, request) {
        Ok(_) => rest,
        Err(Some(text)) => Progress::Refused(before + text + after),
        Err(None) => Progress::Need(request),
    }
}

/// As `ask`, where `sent` transactions already went out.
pub open spec fn ask_sent(
    sent: nat,
    replies: Seq<ReplyView>,
    k: int,
    request: RequestView,
    before: Seq<char>,
    after: Seq<char>,
    rest: Progress,
) -> Progress {
    match heard(replies, k, request) {
        Ok(_) => rest,
        Err(Some(text)) => Progress::Stuck(sent, before + text + after),
        Err(None) => Progress::Need(request),
    }
}

/// How an operation halts when its request has no answer.
pub open spec fn unanswered(
    replies: Seq<ReplyView>,
    k: int,
    request: RequestView,
    before: Seq<char>,
    after: Seq<char>,
) -> HaltView {
    match heard(replies, k, request) {
        Err(Some(text)) => HaltView::Refused(before + text + after),
        _ => HaltView::Need(request),
    }
}

/// Goes on once a transaction builder is started.
pub open spec fn ask_builder(replies: Seq<ReplyView>, k: int, rest: Progress) -> Progress {
    ask(replies, k, RequestView::StartBuilder, "initialize Argent builder: "@, ""@, rest)
}

/// The request for the unspent output of an actor.
pub open spec fn utxo_request(
    actor: Seq<char>,
    state: StateView,
    value: u64,
    covenant_id: Hash32,
) -> RequestView {
    RequestView::ActorUtxo { actor, state, value, covenant_id }
}

/// The unspent output in the reply at place `k`.
pub open spec fn utxo_at(replies: Seq<ReplyView>, k: int) -> UnspentView {
    replies[k]->Utxo_0
}

/// The transaction in the reply at place `k`.
pub open spec fn tx_at(replies: Seq<ReplyView>, k: int) -> ChainTxView {
    replies[k]->Tx_0
}

/// The covenant output in the reply at place `k`.
pub open spec fn output_at(replies: Seq<ReplyView>, k: int) -> CovenantOutputView {
    replies[k]->Output_0
}

/// The halt that a reply gives which is no answer.
fn no_answer(
    replies: &Vec<Reply>,
    k: usize,
    request: Request,
    before: &str,
    after: &str,
) -> (halt: Halt)
    ensures
        halt@ == unanswered(reply_views(replies@), k as int, request@, before@, after@),
{
    if k < replies.len() {
        if let Reply::Failed(text) = &replies[k] {
            return Halt::Refused(OrchestratorError(join3(before, text.as_str(), after)));
        }
    }
    Halt::Need(request)
}

/// The reply at place `k` to a request that only reports success.
pub fn hear_done(
    replies: &Vec<Reply>,
    k: usize,
    request: Request,
    before: &str,
    after: &str,
) -> (heard_it: Result<(), Halt>)
    requires
        request@ is LoadArtifact || request@ is CheckArtifact || request@ is StartBuilder,
    ensures
        heard_it is Ok <==> heard(reply_views(replies@), k as int, request@) is Ok,
        heard_it matches Err(halt) ==> halt@ == unanswered(
            reply_views(replies@),
            k as int,
            request@,
            before@,
            after@,
        ),
{
    if k < replies.len() {
        if let Reply::Done = &replies[k] {
            return Ok(());
        }
    }
    Err(no_answer(replies, k, request, before, after))
}

/// The reply at place `k` to the start of a transaction builder.
pub fn hear_builder(replies: &Vec<Reply>, k: usize) -> (heard_it: Result<(), Halt>)
    ensures
        heard_it is Ok <==> heard(reply_views(replies@), k as int, RequestView::StartBuilder) is Ok,
        heard_it matches Err(halt) ==> halt@ == unanswered(
            reply_views(replies@),
            k as int,
            RequestView::StartBuilder,
            "initialize Argent builder: "@,
            ""@,
        ),
{
    hear_done(replies, k, Request::StartBuilder, "initialize Argent builder: ", "")
}

/// The unspent output that the reply at place `k` gives.
pub fn hear_utxo<'a>(
    replies: &'a Vec<Reply>,
    k: usize,
    request: Request,
    before: &str,
    after: &str,
) -> (heard_it: Result<&'a Unspent, Halt>)
    requires
        request@ is ActorUtxo,
    ensures
        heard_it is Ok <==> heard(reply_views(replies@), k as int, request@) is Ok,
        heard_it matches Ok(utxo) ==> reply_views(replies@)[k as int] == ReplyView::Utxo(utxo@),
        heard_it matches Err(halt) ==> halt@ == unanswered(
            reply_views(replies@),
            k as int,
            request@,
            before@,
            after@,
        ),
{
    if k < replies.len() {
        if let Reply::Utxo(utxo) = &replies[k] {
            return Ok(utxo);
        }
    }
    Err(no_answer(replies, k, request, before, after))
}

/// The transaction that the reply at place `k` gives.
pub fn hear_tx<'a>(
    replies: &'a Vec<Reply>,
    k: usize,
    request: Request,
    before: &str,
    after: &str,
) -> (heard_it: Result<&'a ChainTx, Halt>)
    requires
        request@ is Build,
    ensures
        heard_it is Ok <==> heard(reply_views(replies@), k as int, request@) is Ok,
        heard_it matches Ok(tx) ==> reply_views(replies@)[k as int] == ReplyView::Tx(tx@),
        heard_it matches Err(halt) ==> halt@ == unanswered(
            reply_views(replies@),
            k as int,
            request@,
            before@,
            after@,
        ),
{
    if k < replies.len() {
        if let Reply::Tx(tx) = &replies[k] {
            return Ok(tx);
        }
    }
    Err(no_answer(replies, k, request, before, after))
}

/// The covenant output that the reply at place `k` gives.
pub fn hear_output<'a>(
    replies: &'a Vec<Reply>,
    k: usize,
    request: Request,
    before: &str,
    after: &str,
) -> (heard_it: Result<&'a CovenantOutput, Halt>)
    requires
        request@ is ReadOutput,
    ensures
        heard_it is Ok <==> heard(reply_views(replies@), k as int, request@) is Ok,
        heard_it matches Ok(output) ==> reply_views(replies@)[k as int] == ReplyView::Output(output@),
        heard_it matches Err(halt) ==> halt@ == unanswered(
            reply_views(replies@),
            k as int,
            request@,
            before@,
            after@,
        ),
{
    if k < replies.len() {
        if let Reply::Output(output) = &replies[k] {
            return Ok(output);
        }
    }
    Err(no_answer(replies, k, request, before, after))
}

/// The identifier that the reply at place `k` gives.
pub fn hear_uid(
    replies: &Vec<Reply>,
    k: usize,
    request: Request,
    before: &str,
    after: &str,
) -> (heard_it: Result<Hash32, Halt>)
    requires
        request@ is InvocationUid,
    ensures
        heard_it is Ok <==> heard(reply_views(replies@), k as int, request@) is Ok,
        heard_it matches Ok(uid) ==> reply_views(replies@)[k as int] == ReplyView::Uid(uid),
        heard_it matches Err(halt) ==> halt@ == unanswered(
            reply_views(replies@),
            k as int,
            request@,
            before@,
            after@,
        ),
{
    if k < replies.len() {
        if let Reply::Uid(uid) = &replies[k] {
            return Ok(*uid);
        }
    }
    Err(no_answer(replies, k, request, before, after))
}

/// The position that the reply at place `k` gives.
pub fn hear_move<'a>(
    replies: &'a Vec<Reply>,
    k: usize,
    request: Request,
    before: &str,
    after: &str,
) -> (heard_it: Result<&'a MovedPosition, Halt>)
    requires
        request@ is ApplyMove,
    ensures
        heard_it is Ok <==> heard(reply_views(replies@), k as int, request@) is Ok,
        heard_it matches Ok(moved) ==> reply_views(replies@)[k as int] == ReplyView::Moved(*moved),
        heard_it matches Err(halt) ==> halt@ == unanswered(
            reply_views(replies@),
            k as int,
            request@,
            before@,
            after@,
        ),
{
    if k < replies.len() {
        if let Reply::Moved(moved) = &replies[k] {
            return Ok(moved);
        }
    }
    Err(no_answer(replies, k, request, before, after))
}

} // verus!
