//! Transaction plans: what a transaction builder is asked to put together.

use vstd::prelude::*;

use crate::chain::{copy_bytes, CovenantBinding, Outpoint, Unspent, UnspentView};
use crate::hash::Hash32;
use crate::signing::Keypair;

verus! {

/// The value of one field of an actor's state.
pub enum FieldValue {
    Hash(Hash32),
    Bytes(Vec<u8>),
    Quad([u8; 4]),
    Byte(u8),
    Int(i64),
}

/// The content of a field value.
pub ghost enum FieldView {
    Hash(Hash32),
    Bytes(Seq<u8>),
    Quad(Seq<u8>),
    Byte(u8),
    Int(i64),
}

impl View for FieldValue {
    type V = FieldView;

    open spec fn view(&self) -> FieldView {
        match self {
            FieldValue::Hash(h) => FieldView::Hash(*h),
            FieldValue::Bytes(b) => FieldView::Bytes(b@),
            FieldValue::Quad(q) => FieldView::Quad(q@),
            FieldValue::Byte(b) => FieldView::Byte(*b),
            FieldValue::Int(n) => FieldView::Int(*n),
        }
    }
}

/// The state of an actor: its fields by name.
pub struct SourceState {
    pub fields: Vec<(&'static str, FieldValue)>,
}

/// The fields of an actor's state.
pub type StateView = Seq<(Seq<char>, FieldView)>;

impl View for SourceState {
    type V = StateView;

    open spec fn view(&self) -> StateView {
        self.fields@.map_values(|f: (&'static str, FieldValue)| (f.0@, f.1@))
    }
}

impl SourceState {
    /// A state without fields.
    pub fn new() -> (state: SourceState)
        ensures
            state@ == Seq::<(Seq<char>, FieldView)>::empty(),
    {
        let state = SourceState { fields: Vec::new() };
        assert(state@ =~= Seq::<(Seq<char>, FieldView)>::empty());
        state
    }

    /// The state with one more field.
    pub fn with(self, name: &'static str, value: FieldValue) -> (state: SourceState)
        ensures
            state@ == self@.push((name@, value@)),
    {
        let mut fields = self.fields;
        fields.push((name, value));
        let state = SourceState { fields };
        assert(state@ =~= self@.push((name@, value@)));
        state
    }
}

/// An argument of an entry point. A signature stands for the signature of the input that the
/// entry point unlocks, which exists only once the transaction does.
pub enum EntryArg {
    Signature(Keypair),
    Bytes(Vec<u8>),
    Hash(Hash32),
    Actor(&'static str),
    Byte(u8),
    Int(i64),
}

/// The content of an argument.
pub ghost enum EntryArgView {
    Signature(Seq<u8>),
    Bytes(Seq<u8>),
    Hash(Hash32),
    Actor(Seq<char>),
    Byte(u8),
    Int(i64),
}

impl View for EntryArg {
    type V = EntryArgView;

    open spec fn view(&self) -> EntryArgView {
        match self {
            EntryArg::Signature(k) => EntryArgView::Signature(k.secret_key()),
            EntryArg::Bytes(b) => EntryArgView::Bytes(b@),
            EntryArg::Hash(h) => EntryArgView::Hash(*h),
            EntryArg::Actor(a) => EntryArgView::Actor(a@),
            EntryArg::Byte(b) => EntryArgView::Byte(*b),
            EntryArg::Int(n) => EntryArgView::Int(*n),
        }
    }
}

/// A call of an actor's entry point.
pub struct EntryCall {
    pub name: &'static str,
    pub args: Vec<EntryArg>,
}

/// The content of an entry call.
pub ghost struct EntryCallView {
    pub name: Seq<char>,
    pub args: Seq<EntryArgView>,
}

impl EntryCallView {
    /// The call with one more argument.
    pub open spec fn with(self, arg: EntryArgView) -> EntryCallView {
        EntryCallView { name: self.name, args: self.args.push(arg) }
    }
}

/// A call without arguments.
pub open spec fn entry(name: Seq<char>) -> EntryCallView {
    EntryCallView { name, args: Seq::empty() }
}

impl View for EntryCall {
    type V = EntryCallView;

    open spec fn view(&self) -> EntryCallView {
        EntryCallView { name: self.name@, args: self.args@.map_values(|a: EntryArg| a@) }
    }
}

impl EntryCall {
    /// A call without arguments.
    pub fn new(name: &'static str) -> (call: EntryCall)
        ensures
            call@ == entry(name@),
    {
        let call = EntryCall { name, args: Vec::new() };
        assert(call@.args =~= Seq::<EntryArgView>::empty());
        call
    }

    /// The call with one more argument.
    pub fn with(self, arg: EntryArg) -> (call: EntryCall)
        ensures
            call@ == self@.with(arg@),
    {
        let mut args = self.args;
        args.push(arg);
        let call = EntryCall { name: self.name, args };
        assert(call@.args =~= self@.args.push(arg@));
        call
    }
}

/// An input of a planned transaction: a plain one, or an actor that an entry call unlocks.
pub enum PlannedInput {
    Plain { outpoint: Outpoint, utxo: Unspent, signature_script: Vec<u8>, sequence: u64 },
    Actor {
        actor: &'static str,
        state: SourceState,
        call: EntryCall,
        outpoint: Outpoint,
        utxo: Unspent,
        sequence: u64,
    },
}

/// The content of a planned input.
pub ghost enum PlannedInputView {
    Plain { outpoint: Outpoint, utxo: UnspentView, signature_script: Seq<u8>, sequence: u64 },
    Actor {
        actor: Seq<char>,
        state: StateView,
        call: EntryCallView,
        outpoint: Outpoint,
        utxo: UnspentView,
        sequence: u64,
    },
}

impl View for PlannedInput {
    type V = PlannedInputView;

    open spec fn view(&self) -> PlannedInputView {
        match self {
            PlannedInput::Plain { outpoint, utxo, signature_script, sequence } => PlannedInputView::Plain {
                outpoint: *outpoint,
                utxo: utxo@,
                signature_script: signature_script@,
                sequence: *sequence,
            },
            PlannedInput::Actor { actor, state, call, outpoint, utxo, sequence } => PlannedInputView::Actor {
                actor: actor@,
                state: state@,
                call: call@,
                outpoint: *outpoint,
                utxo: utxo@,
                sequence: *sequence,
            },
        }
    }
}

/// An output of a planned transaction: an actor that a covenant starts with, or one that belongs
/// to a running covenant.
pub enum PlannedOutput {
    Genesis {
        authorizing_input: u16,
        label: &'static str,
        actor: &'static str,
        state: SourceState,
        value: u64,
    },
    Actor { actor: &'static str, state: SourceState, binding: CovenantBinding, value: u64 },
}

/// The content of a planned output.
pub ghost enum PlannedOutputView {
    Genesis {
        authorizing_input: u16,
        label: Seq<char>,
        actor: Seq<char>,
        state: StateView,
        value: u64,
    },
    Actor { actor: Seq<char>, state: StateView, binding: CovenantBinding, value: u64 },
}

impl View for PlannedOutput {
    type V = PlannedOutputView;

    open spec fn view(&self) -> PlannedOutputView {
        match self {
            PlannedOutput::Genesis { authorizing_input, label, actor, state, value } => PlannedOutputView::Genesis {
                authorizing_input: *authorizing_input,
                label: label@,
                actor: actor@,
                state: state@,
                value: *value,
            },
            PlannedOutput::Actor { actor, state, binding, value } => PlannedOutputView::Actor {
                actor: actor@,
                state: state@,
                binding: *binding,
                value: *value,
            },
        }
    }
}

/// A transaction to build.
pub struct TxPlan {
    pub inputs: Vec<PlannedInput>,
    pub outputs: Vec<PlannedOutput>,
}

/// The content of a plan.
pub ghost struct TxPlanView {
    pub inputs: Seq<PlannedInputView>,
    pub outputs: Seq<PlannedOutputView>,
}

impl View for TxPlan {
    type V = TxPlanView;

    open spec fn view(&self) -> TxPlanView {
        TxPlanView {
            inputs: self.inputs@.map_values(|i: PlannedInput| i@),
            outputs: self.outputs@.map_values(|o: PlannedOutput| o@),
        }
    }
}

/// A plan without inputs and outputs.
pub open spec fn plan() -> TxPlanView {
    TxPlanView { inputs: Seq::empty(), outputs: Seq::empty() }
}

impl TxPlanView {
    /// The plan with one more input.
    pub open spec fn input(self, input: PlannedInputView) -> TxPlanView {
        TxPlanView { inputs: self.inputs.push(input), outputs: self.outputs }
    }

    /// The plan with one more actor input.
    pub open spec fn spend(
        self,
        actor: Seq<char>,
        state: StateView,
        call: EntryCallView,
        outpoint: Outpoint,
        utxo: UnspentView,
        sequence: u64,
    ) -> TxPlanView {
        self.input(PlannedInputView::Actor { actor, state, call, outpoint, utxo, sequence })
    }

    /// The plan with one more output.
    pub open spec fn output(self, output: PlannedOutputView) -> TxPlanView {
        TxPlanView { inputs: self.inputs, outputs: self.outputs.push(output) }
    }

    /// The plan with one more actor output, authorized by the first input.
    pub open spec fn keep(
        self,
        actor: Seq<char>,
        state: StateView,
        covenant_id: Hash32,
        value: u64,
    ) -> TxPlanView {
        self.output(
            PlannedOutputView::Actor {
                actor,
                state,
                binding: CovenantBinding { authorizing_input: 0, covenant_id },
                value,
            },
        )
    }
}

impl TxPlan {
    /// A plan without inputs and outputs.
    pub fn new() -> (built: TxPlan)
        ensures
            built@ == plan(),
    {
        let built = TxPlan { inputs: Vec::new(), outputs: Vec::new() };
        assert(built@.inputs =~= Seq::<PlannedInputView>::empty());
        assert(built@.outputs =~= Seq::<PlannedOutputView>::empty());
        built
    }

    /// The plan with one more input.
    pub fn input(self, input: PlannedInput) -> (built: TxPlan)
        ensures
            built@ == self@.input(input@),
    {
        let mut inputs = self.inputs;
        inputs.push(input);
        let built = TxPlan { inputs, outputs: self.outputs };
        assert(built@.inputs =~= self@.inputs.push(input@));
        built
    }

    /// The plan with one more output.
    pub fn output(self, output: PlannedOutput) -> (built: TxPlan)
        ensures
            built@ == self@.output(output@),
    {
        let mut outputs = self.outputs;
        outputs.push(output);
        let built = TxPlan { inputs: self.inputs, outputs };
        assert(built@.outputs =~= self@.outputs.push(output@));
        built
    }

    /// The plan with one more actor input.
    pub fn spend(
        self,
        actor: &'static str,
        state: SourceState,
        call: EntryCall,
        outpoint: Outpoint,
        utxo: Unspent,
        sequence: u64,
    ) -> (built: TxPlan)
        ensures
            built@ == self@.spend(actor@, state@, call@, outpoint, utxo@, sequence),
    {
        self.input(PlannedInput::Actor { actor, state, call, outpoint, utxo, sequence })
    }

    /// The plan with one more actor output, authorized by the first input.
    pub fn keep(
        self,
        actor: &'static str,
        state: SourceState,
        covenant_id: Hash32,
        value: u64,
    ) -> (built: TxPlan)
        ensures
            built@ == self@.keep(actor@, state@, covenant_id, value),
    {
        self.output(
            PlannedOutput::Actor {
                actor,
                state,
                binding: CovenantBinding { authorizing_input: 0, covenant_id },
                value,
            },
        )
    }
}

/// The two arguments with which an owner unlocks an actor: the signature and the public key.
pub open spec fn owner_args(
    call: EntryCallView,
    secret: Seq<u8>,
    public_key: Seq<u8>,
) -> EntryCallView {
    call.with(EntryArgView::Signature(secret)).with(EntryArgView::Bytes(public_key))
}

/// The call with the signature and the public key of its owner.
pub fn with_owner_args(
    call: EntryCall,
    keypair: Keypair,
    public_key: &Vec<u8>,
) -> (extended: EntryCall)
    ensures
        extended@ == owner_args(call@, keypair.secret_key(), public_key@),
{
    call.with(EntryArg::Signature(keypair)).with(EntryArg::Bytes(copy_bytes(public_key)))
}

} // verus!
