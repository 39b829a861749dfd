use platform_explorer::backend::{
    classify, completion_event, RemoteOutcome, CONNECT_TIMEOUT_SECS, REQUEST_TIMEOUT_SECS,
};
use platform_explorer::identifier::Identifier;
use platform_explorer::identity::{identity_bytes_of_response, Error, IdentityAnswer};
use platform_explorer::state::{initialize_session, AppState, KnownIdentities};
use platform_explorer::task::{
    copy_bytes, copy_values, BackendEvent, CompletedTaskPayload, Contender, Contenders,
    ContestedDocumentResourceVotePoll, ContractTask, DocumentTask, Identity, IdentityTask,
    ResourceValue, StateDiff, StrategyTask, Task, TaskDomain, TaskError, WalletTask,
};

fn id(byte: u8) -> Identifier {
    Identifier::new([byte; 32])
}

fn identity(byte: u8, balance: u64) -> Identity {
    Identity {
        id: id(byte),
        balance,
    }
}

#[test]
fn identifiers_compare_by_their_bytes() {
    assert!(id(1).same_as(&id(1)));
    assert!(!id(1).same_as(&id(2)));
    let mut bytes = [0u8; 32];
    bytes[31] = 1;
    assert!(!Identifier::new(bytes).same_as(&id(0)));
    assert_eq!(Identifier::new(bytes).bytes, bytes);
}

#[test]
fn a_fresh_session_knows_its_loaded_identity() {
    let loaded = Some(identity(1, 10));
    let mut known = KnownIdentities::new();
    let mut selected = Some("stress".to_string());
    initialize_session(&loaded, &mut known, &mut selected);
    assert_eq!(selected, None);
    assert_eq!(known.len(), 1);
    assert_eq!(known.get(&id(1)), Some(identity(1, 10)));
}

#[test]
fn a_known_identity_is_not_entered_twice() {
    let mut known = KnownIdentities::new();
    assert!(known.insert_if_absent(identity(1, 10)));
    assert!(known.insert_if_absent(identity(2, 20)));
    let loaded = Some(identity(1, 99));
    let mut selected = None;
    initialize_session(&loaded, &mut known, &mut selected);
    assert_eq!(known.len(), 2);
    assert_eq!(known.get(&id(1)), Some(identity(1, 10)));
    assert_eq!(selected, None);
    initialize_session(&loaded, &mut known, &mut selected);
    assert_eq!(known.len(), 2);
}

#[test]
fn without_loaded_identity_only_the_strategy_is_reset() {
    let mut known = KnownIdentities::new();
    known.insert_if_absent(identity(3, 30));
    let mut selected = Some("stress".to_string());
    initialize_session(&None, &mut known, &mut selected);
    assert_eq!(known.len(), 1);
    assert_eq!(selected, None);
}

#[test]
fn known_identities_are_found_by_identifier() {
    let mut known = KnownIdentities::new();
    assert_eq!(known.len(), 0);
    assert!(!known.contains(&id(1)));
    assert_eq!(known.get(&id(1)), None);
    assert!(known.insert_if_absent(identity(1, 10)));
    assert!(!known.insert_if_absent(identity(1, 11)));
    assert!(known.contains(&id(1)));
    assert!(!known.contains(&id(2)));
    assert_eq!(known.get(&id(1)), Some(identity(1, 10)));
}

#[test]
fn a_refresh_replaces_or_adds() {
    let mut known = KnownIdentities::new();
    known.refresh(identity(1, 10));
    known.refresh(identity(2, 20));
    known.refresh(identity(1, 15));
    assert_eq!(known.len(), 2);
    assert_eq!(known.get(&id(1)), Some(identity(1, 15)));
    assert_eq!(known.get(&id(2)), Some(identity(2, 20)));
}

#[test]
fn the_state_of_a_first_session_is_empty() {
    let state = AppState::new();
    assert_eq!(state.loaded_identity, None);
    assert_eq!(state.known_identities.len(), 0);
    assert_eq!(state.selected_strategy, None);
    assert!(state.strategies.is_empty());
}

#[test]
fn the_state_is_made_fresh_as_a_whole() {
    let mut state = AppState::new();
    state.loaded_identity = Some(identity(4, 40));
    state.selected_strategy = Some("stress".to_string());
    state.strategies.push("stress".to_string());
    state.initialize();
    assert_eq!(state.loaded_identity, Some(identity(4, 40)));
    assert_eq!(state.selected_strategy, None);
    assert_eq!(state.strategies, vec!["stress".to_string()]);
    assert_eq!(state.known_identities.get(&id(4)), Some(identity(4, 40)));
}

#[test]
fn state_changes_are_applied() {
    let mut state = AppState::new();
    state.apply(StateDiff::LoadedIdentity(identity(1, 10)));
    assert_eq!(state.loaded_identity, Some(identity(1, 10)));
    assert_eq!(state.known_identities.get(&id(1)), Some(identity(1, 10)));
    state.apply(StateDiff::KnownIdentity(identity(2, 20)));
    assert_eq!(state.loaded_identity, Some(identity(1, 10)));
    assert_eq!(state.known_identities.len(), 2);
    state.apply(StateDiff::LoadedIdentity(identity(1, 50)));
    assert_eq!(state.known_identities.len(), 2);
    assert_eq!(state.known_identities.get(&id(1)), Some(identity(1, 50)));
    state.apply(StateDiff::SelectedStrategy(Some("stress".to_string())));
    assert_eq!(state.selected_strategy, Some("stress".to_string()));
    state.apply(StateDiff::SelectedStrategy(None));
    assert_eq!(state.selected_strategy, None);
    assert_eq!(state.known_identities.len(), 2);
}

#[test]
fn tasks_have_their_domain() {
    assert_eq!(
        Task::Identity(IdentityTask::Refresh).domain(),
        TaskDomain::Identity
    );
    assert_eq!(Task::Wallet(WalletTask::Refresh).domain(), TaskDomain::Wallet);
    assert_eq!(
        Task::Contract(ContractTask::FetchDPNSContract).domain(),
        TaskDomain::Contract
    );
    assert_eq!(
        Task::Document(DocumentTask::QueryVoteContenders(
            "index".to_string(),
            Vec::new(),
            "domain".to_string(),
            id(9)
        ))
        .domain(),
        TaskDomain::Document
    );
    assert_eq!(
        Task::Strategy(StrategyTask::RunStrategy("s".to_string(), 1, false)).domain(),
        TaskDomain::Strategy
    );
}

#[test]
fn remote_outcomes_are_classified() {
    let note = "timed out".to_string();
    assert_eq!(
        classify(
            RemoteOutcome::Answered(CompletedTaskPayload::Balance(7)),
            note.clone()
        ),
        Ok(CompletedTaskPayload::Balance(7))
    );
    assert_eq!(
        classify(RemoteOutcome::Refused("no such strategy".to_string()), note.clone()),
        Err(TaskError::Configuration("no such strategy".to_string()))
    );
    assert_eq!(
        classify(RemoteOutcome::Unreachable("refused".to_string()), note.clone()),
        Err(TaskError::Transport("refused".to_string()))
    );
    assert_eq!(
        classify(RemoteOutcome::TimedOut, note.clone()),
        Err(TaskError::Transport("timed out".to_string()))
    );
    assert_eq!(
        classify(RemoteOutcome::InvalidProof("bad root".to_string()), note),
        Err(TaskError::ProofVerification("bad root".to_string()))
    );
}

#[test]
fn requests_are_given_ten_seconds() {
    assert_eq!(CONNECT_TIMEOUT_SECS, 10);
    assert_eq!(REQUEST_TIMEOUT_SECS, 10);
}

#[test]
fn a_completion_carries_its_task() {
    let task = Task::Identity(IdentityTask::TopUpIdentity(5));
    let event = completion_event(task.clone(), Ok(CompletedTaskPayload::Done), None);
    assert_eq!(
        event,
        BackendEvent::TaskCompleted {
            task: task.clone(),
            execution_result: Ok(CompletedTaskPayload::Done)
        }
    );
    assert_eq!(event.task(), &task);
    let event = completion_event(
        task.clone(),
        Ok(CompletedTaskPayload::Balance(5)),
        Some(StateDiff::LoadedIdentity(identity(1, 5))),
    );
    assert_eq!(
        event,
        BackendEvent::TaskCompletedStateChange {
            task: task.clone(),
            execution_result: Ok(CompletedTaskPayload::Balance(5)),
            state_diff: StateDiff::LoadedIdentity(identity(1, 5)),
        }
    );
    assert_eq!(event.task(), &task);
    assert_eq!(event.execution_result(), &Ok(CompletedTaskPayload::Balance(5)));
}

#[test]
fn only_an_identity_in_the_answer_counts() {
    assert_eq!(
        identity_bytes_of_response(Some(IdentityAnswer::Identity(vec![1, 2, 3]))),
        Ok(vec![1, 2, 3])
    );
    assert_eq!(
        identity_bytes_of_response(Some(IdentityAnswer::Identity(Vec::new()))),
        Ok(Vec::new())
    );
    assert_eq!(
        identity_bytes_of_response(Some(IdentityAnswer::Proof(vec![1]))),
        Err(Error::DapiError)
    );
    assert_eq!(
        identity_bytes_of_response(Some(IdentityAnswer::Empty)),
        Err(Error::DapiError)
    );
    assert_eq!(identity_bytes_of_response(None), Err(Error::DapiError));
}

#[test]
fn copies_equal_what_they_copy() {
    assert_eq!(copy_bytes(&vec![1, 2, 3]), vec![1, 2, 3]);
    assert_eq!(copy_bytes(&Vec::new()), Vec::<u8>::new());
    let value = ResourceValue {
        text: "dash".to_string(),
        toml: "name = \"dash\"\n".to_string(),
        encoded: vec![4, 100, 97, 115, 104],
    };
    assert_eq!(value.duplicate(), value);
    let values = vec![value.clone(), value.clone()];
    assert_eq!(copy_values(&values), values);
    let poll = ContestedDocumentResourceVotePoll {
        contract_id: id(7),
        document_type_name: "domain".to_string(),
        index_name: "parentNameAndLabel".to_string(),
        index_values: values,
    };
    assert_eq!(poll.duplicate(), poll);
    let contenders = Contenders {
        contenders: vec![
            Contender {
                id: id(1),
                label: "one".to_string(),
            },
            Contender {
                id: id(2),
                label: "two".to_string(),
            },
        ],
    };
    assert_eq!(contenders.duplicate(), contenders);
}
