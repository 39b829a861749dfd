//! The task and result model: what a screen may ask the backend to do, and
//! what comes back.

use vstd::prelude::*;
use crate::identifier::Identifier;

verus! {

/// An on-platform account: its identifier and its balance in credits.
#[derive(Clone, Copy, Debug, PartialEq, Eq)]
pub struct Identity {
    pub id: Identifier,
    pub balance: u64,
}

/// A platform value as the explorer handles it: its one-line text, its
/// rendering as a TOML document, and its encoded bytes as they travel in a
/// request.
#[derive(Clone, Debug, PartialEq, Eq)]
pub struct ResourceValue {
    pub text: String,
    pub toml: String,
    pub encoded: Vec<u8>,
}

/// Tasks on identities. Amounts are in duffs.
#[derive(Clone, Debug, PartialEq, Eq)]
pub enum IdentityTask {
    RegisterIdentity(u64),
    TopUpIdentity(u64),
    Refresh,
}

/// Tasks on the wallet.
#[derive(Clone, Debug, PartialEq, Eq)]
pub enum WalletTask {
    Refresh,
}

/// Tasks on data contracts.
#[derive(Clone, Debug, PartialEq, Eq)]
pub enum ContractTask {
    FetchDashpayContract,
    FetchDPNSContract,
}

/// The poll on a contested document resource.
#[derive(Clone, Debug, PartialEq, Eq)]
pub struct ContestedDocumentResourceVotePoll {
    pub contract_id: Identifier,
    pub document_type_name: String,
    pub index_name: String,
    pub index_values: Vec<ResourceValue>,
}

/// A poll that can be voted on.
#[derive(Clone, Debug, PartialEq, Eq)]
pub enum VotePoll {
    ContestedDocumentResourceVotePoll(ContestedDocumentResourceVotePoll),
}

/// A vote on a contested resource.
#[derive(Clone, Debug, PartialEq, Eq)]
pub enum ResourceVoteChoice {
    TowardsIdentity(Identifier),
    Abstain,
    Lock,
}

/// Tasks on documents.
#[derive(Clone, Debug, PartialEq, Eq)]
pub enum DocumentTask {
    /// Index name, index values, document type name, contract identifier.
    QueryVoteContenders(String, Vec<ResourceValue>, String, Identifier),
    VoteOnContestedResource(VotePoll, ResourceVoteChoice),
}

/// Tasks on stress-test strategies.
#[derive(Clone, Debug, PartialEq, Eq)]
pub enum StrategyTask {
    /// Strategy name, number of blocks, whether to verify proofs.
    RunStrategy(String, u64, bool),
}

/// Everything the backend can be asked to do.
#[derive(Clone, Debug, PartialEq, Eq)]
pub enum Task {
    Identity(IdentityTask),
    Wallet(WalletTask),
    Contract(ContractTask),
    Document(DocumentTask),
    Strategy(StrategyTask),
}

/// The domain of a task, by which the backend picks its handler.
#[derive(Clone, Copy, Debug, PartialEq, Eq, Structural)]
pub enum TaskDomain {
    Identity,
    Wallet,
    Contract,
    Document,
    Strategy,
}

/// An identity that competes for a contested resource, with the Base58 text
/// of its identifier.
#[derive(Clone, Debug, PartialEq, Eq)]
pub struct Contender {
    pub id: Identifier,
    pub label: String,
}

/// The identities that compete for one contested resource.
#[derive(Clone, Debug, PartialEq, Eq)]
pub struct Contenders {
    pub contenders: Vec<Contender>,
}

/// How one block of a strategy run ended.
#[derive(Clone, Copy, Debug, PartialEq, Eq, Structural)]
pub enum BlockOutcome {
    /// The block's operations were confirmed (and, where asked for, proved).
    Confirmed,
    /// The operations were confirmed but their inclusion proof did not verify.
    ProofFailed,
    /// Every address that was tried failed at the transport level.
    TransportFailed,
}

/// What a strategy run reports when it is done.
#[derive(Clone, Debug, PartialEq, Eq)]
pub struct StrategySummary {
    pub successes: u64,
    pub failures: u64,
    pub elapsed_millis: u64,
    pub blocks: Vec<BlockOutcome>,
}

/// What a task that succeeded hands back.
#[derive(Clone, Debug, PartialEq, Eq)]
pub enum CompletedTaskPayload {
    /// Nothing but the success itself.
    Done,
    Bytes(Vec<u8>),
    Text(String),
    Balance(u64),
    ContestedResourceContenders(ContestedDocumentResourceVotePoll, Contenders),
    StrategyCompleted(StrategySummary),
}

/// Why a task failed.
#[derive(Clone, Debug, PartialEq, Eq)]
pub enum TaskError {
    /// The request itself cannot be served: an unknown strategy, a malformed
    /// identifier, an amount out of range.
    Configuration(String),
    /// The remote endpoint could not be reached, or timed out.
    Transport(String),
    /// An inclusion proof did not verify.
    ProofVerification(String),
}

/// A change that a task made to the shared application state.
#[derive(Clone, Debug, PartialEq, Eq)]
pub enum StateDiff {
    LoadedIdentity(Identity),
    KnownIdentity(Identity),
    SelectedStrategy(Option<String>),
}

/// What the backend reports when a task has run.
#[derive(Debug, PartialEq, Eq)]
pub enum BackendEvent {
    TaskCompleted { task: Task, execution_result: Result<CompletedTaskPayload, TaskError> },
    TaskCompletedStateChange {
        task: Task,
        execution_result: Result<CompletedTaskPayload, TaskError>,
        state_diff: StateDiff,
    },
}

impl Task {
    /// The domain that the task belongs to.
    pub open spec fn spec_domain(&self) -> TaskDomain {
        match self {
            Task::Identity(_) => TaskDomain::Identity,
            Task::Wallet(_) => TaskDomain::Wallet,
            Task::Contract(_) => TaskDomain::Contract,
            Task::Document(_) => TaskDomain::Document,
            Task::Strategy(_) => TaskDomain::Strategy,
        }
    }

    /// The domain that the task belongs to.
    #[verifier::when_used_as_spec(spec_domain)]
    pub fn domain(&self) -> (domain: TaskDomain)
        ensures
            domain == self.spec_domain(),
    {
        match self {
            Task::Identity(_) => TaskDomain::Identity,
            Task::Wallet(_) => TaskDomain::Wallet,
            Task::Contract(_) => TaskDomain::Contract,
            Task::Document(_) => TaskDomain::Document,
            Task::Strategy(_) => TaskDomain::Strategy,
        }
    }
}

impl BackendEvent {
    /// The task that this event reports on.
    pub open spec fn spec_task(&self) -> Task {
        match self {
            BackendEvent::TaskCompleted { task, .. } => *task,
            BackendEvent::TaskCompletedStateChange { task, .. } => *task,
        }
    }

    /// How the task ended.
    pub open spec fn spec_execution_result(&self) -> Result<CompletedTaskPayload, TaskError> {
        match self {
            BackendEvent::TaskCompleted { execution_result, .. } => *execution_result,
            BackendEvent::TaskCompletedStateChange { execution_result, .. } => *execution_result,
        }
    }

    /// The state change that came with the task, if any.
    pub open spec fn spec_state_diff(&self) -> Option<StateDiff> {
        match self {
            BackendEvent::TaskCompleted { .. } => None,
            BackendEvent::TaskCompletedStateChange { state_diff, .. } => Some(*state_diff),
        }
    }

    /// The task that this event reports on.
    pub fn task(&self) -> (task: &Task)
        ensures
            *task == self.spec_task(),
    {
        match self {
            BackendEvent::TaskCompleted { task, .. } => task,
            BackendEvent::TaskCompletedStateChange { task, .. } => task,
        }
    }

    /// How the task ended.
    pub fn execution_result(&self) -> (result: &Result<CompletedTaskPayload, TaskError>)
        ensures
            *result == self.spec_execution_result(),
    {
        match self {
            BackendEvent::TaskCompleted { execution_result, .. } => execution_result,
            BackendEvent::TaskCompletedStateChange { execution_result, .. } => execution_result,
        }
    }
}

/// A platform value, as the contracts speak of it.
pub struct ResourceValueView {
    pub text: Seq<char>,
    pub toml: Seq<char>,
    pub encoded: Seq<u8>,
}

impl View for ResourceValue {
    type V = ResourceValueView;

    open spec fn view(&self) -> ResourceValueView {
        ResourceValueView { text: self.text@, toml: self.toml@, encoded: self.encoded@ }
    }
}

/// The views of `values`, in order.
pub open spec fn value_views(values: Seq<ResourceValue>) -> Seq<ResourceValueView> {
    Seq::new(values.len(), |i: int| values[i]@)
}

/// Copies bytes.
pub fn copy_bytes(bytes: &Vec<u8>) -> (copy: Vec<u8>)
    ensures
        copy@ == bytes@,
{
    let mut copy: Vec<u8> = Vec::new();
    let mut i: usize = 0;
    while i < bytes.len()
        invariant
            i <= bytes.len(),
            copy@ == bytes@.take(i as int),
        decreases bytes.len() - i,
    {
        copy.push(bytes[i]);
        assert(bytes@.take(i + 1) =~= bytes@.take(i as int).push(bytes@[i as int]));
        i += 1;
    }
    assert(bytes@.take(i as int) =~= bytes@);
    copy
}

impl ResourceValue {
    /// A copy of this value.
    pub fn duplicate(&self) -> (copy: ResourceValue)
        ensures
            copy@ == self@,
    {
        ResourceValue {
            text: self.text.clone(),
            toml: self.toml.clone(),
            encoded: copy_bytes(&self.encoded),
        }
    }
}

/// Copies values.
pub fn copy_values(values: &Vec<ResourceValue>) -> (copy: Vec<ResourceValue>)
    ensures
        value_views(copy@) == value_views(values@),
{
    let mut copy: Vec<ResourceValue> = Vec::new();
    let mut i: usize = 0;
    while i < values.len()
        invariant
            i <= values.len(),
            copy@.len() == i,
            forall|j: int| 0 <= j < i ==> (#[trigger] copy@[j])@ == values@[j]@,
        decreases values.len() - i,
    {
        copy.push(values[i].duplicate());
        i += 1;
    }
    assert(value_views(copy@) =~= value_views(values@));
    copy
}

/// A poll on a contested document resource, as the contracts speak of it.
pub struct VotePollView {
    pub contract_id: Identifier,
    pub document_type_name: Seq<char>,
    pub index_name: Seq<char>,
    pub index_values: Seq<ResourceValueView>,
}

impl View for ContestedDocumentResourceVotePoll {
    type V = VotePollView;

    open spec fn view(&self) -> VotePollView {
        VotePollView {
            contract_id: self.contract_id,
            document_type_name: self.document_type_name@,
            index_name: self.index_name@,
            index_values: value_views(self.index_values@),
        }
    }
}

impl ContestedDocumentResourceVotePoll {
    /// A copy of this poll.
    pub fn duplicate(&self) -> (copy: ContestedDocumentResourceVotePoll)
        ensures
            copy@ == self@,
    {
        ContestedDocumentResourceVotePoll {
            contract_id: self.contract_id,
            document_type_name: self.document_type_name.clone(),
            index_name: self.index_name.clone(),
            index_values: copy_values(&self.index_values),
        }
    }
}

/// A contender, as the contracts speak of it.
pub struct ContenderView {
    pub id: Identifier,
    pub label: Seq<char>,
}

impl View for Contender {
    type V = ContenderView;

    open spec fn view(&self) -> ContenderView {
        ContenderView { id: self.id, label: self.label@ }
    }
}

impl View for Contenders {
    type V = Seq<ContenderView>;

    open spec fn view(&self) -> Seq<ContenderView> {
        Seq::new(self.contenders@.len(), |i: int| self.contenders@[i]@)
    }
}

impl Contenders {
    /// A copy of these contenders.
    pub fn duplicate(&self) -> (copy: Contenders)
        ensures
            copy@ == self@,
    {
        let mut contenders: Vec<Contender> = Vec::new();
        let mut i: usize = 0;
        while i < self.contenders.len()
            invariant
                i <= self.contenders.len(),
                contenders@.len() == i,
                forall|j: int| 0 <= j < i ==> (#[trigger] contenders@[j])@ == self.contenders@[j]@,
            decreases self.contenders.len() - i,
        {
            let contender = &self.contenders[i];
            contenders.push(Contender { id: contender.id, label: contender.label.clone() });
            i += 1;
        }
        let copy = Contenders { contenders };
        assert(copy@ =~= self@);
        copy
    }
}

} // verus!
