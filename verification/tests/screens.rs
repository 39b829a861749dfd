use platform_explorer::event::{Event, UiFeedback};
use platform_explorer::identifier::Identifier;
use platform_explorer::keys::{Key, KeyEvent, KeyModifiers};
use platform_explorer::task::{
    BackendEvent, CompletedTaskPayload, Contender, Contenders, ContestedDocumentResourceVotePoll,
    ContractTask, DocumentTask, Identity, ResourceValue, ResourceVoteChoice, StateDiff, Task,
    TaskError, VotePoll, WalletTask,
};
use platform_explorer::ui::form::{FormStatus, InputStatus, SelectInput};
use platform_explorer::ui::info::{count_line_breaks, Info};
use platform_explorer::ui::latch::DispatchLatch;
use platform_explorer::ui::screen::{ScreenCommandKey, ScreenFeedback};
use platform_explorer::ui::views::contested_resources::{
    choice_for, ContestedResource, ContestedResourceVoteFormController, ContestedResources,
    ContestedResourcesScreenController, DataContract, DocumentType,
};
use platform_explorer::ui::views::fetch_contract::{
    error_message, FetchSystemContractScreenController,
};

fn plain(c: char) -> KeyEvent {
    KeyEvent::new(Key::Char(c), KeyModifiers::none())
}

fn ctrl(c: char) -> KeyEvent {
    KeyEvent::new(Key::Char(c), KeyModifiers::control())
}

fn bare(code: Key) -> KeyEvent {
    KeyEvent::new(code, KeyModifiers::none())
}

fn id(byte: u8) -> Identifier {
    Identifier::new([byte; 32])
}

fn value(name: &str) -> ResourceValue {
    ResourceValue {
        text: name.to_string(),
        toml: format!("label = \"{}\"\nkind = \"text\"\n", name),
        encoded: name.as_bytes().to_vec(),
    }
}

fn batch(names: &[&str]) -> ContestedResources {
    ContestedResources(
        names
            .iter()
            .map(|name| ContestedResource::Value(value(name)))
            .collect(),
    )
}

fn document_type(contested_index: Option<&str>) -> DocumentType {
    DocumentType {
        name: "domain".to_string(),
        contested_index: contested_index.map(|name| name.to_string()),
    }
}

fn screen(names: &[&str]) -> ContestedResourcesScreenController {
    ContestedResourcesScreenController::new(
        batch(names),
        DataContract { id: id(9) },
        document_type(Some("parentNameAndLabel")),
    )
}

fn poll() -> ContestedDocumentResourceVotePoll {
    ContestedDocumentResourceVotePoll {
        contract_id: id(9),
        document_type_name: "domain".to_string(),
        index_name: "parentNameAndLabel".to_string(),
        index_values: vec![value("dash")],
    }
}

fn contenders() -> Contenders {
    Contenders {
        contenders: vec![
            Contender {
                id: id(1),
                label: "4vJ9JU1bJJE96FWSJKvHsmmFADCg4gpZQff4P3bkLKi".to_string(),
            },
            Contender {
                id: id(2),
                label: "8qbHbw2BbbTHBW1sbeqakYXVKRQM8Ne7pLK7m6CVfeR".to_string(),
            },
        ],
    }
}

fn query() -> Task {
    Task::Document(DocumentTask::QueryVoteContenders(
        "parentNameAndLabel".to_string(),
        vec![value("dash")],
        "domain".to_string(),
        id(9),
    ))
}

#[test]
fn keys_are_told_apart() {
    assert!(plain('q').is_plain('q'));
    assert!(!plain('q').is_plain('p'));
    assert!(!ctrl('q').is_plain('q'));
    assert!(ctrl('n').is_ctrl('n'));
    assert!(!plain('n').is_ctrl('n'));
    assert!(bare(Key::Down).is_bare(Key::Down));
    assert!(!bare(Key::Down).is_bare(Key::Up));
    let shifted = KeyEvent::new(
        Key::Char('q'),
        KeyModifiers {
            shift: true,
            control: false,
            alt: false,
        },
    );
    assert!(!shifted.is_plain('q'));
    assert!(!shifted.is_ctrl('q'));
}

#[test]
fn line_breaks_are_counted() {
    assert_eq!(count_line_breaks(""), 0);
    assert_eq!(count_line_breaks("one"), 0);
    assert_eq!(count_line_breaks("one\ntwo"), 1);
    assert_eq!(count_line_breaks("one\ntwo\n"), 2);
    assert_eq!(count_line_breaks("\u{00e9}\n\u{4e2d}\n\n"), 3);
}

#[test]
fn a_panel_scrolls_within_its_text() {
    let mut info = Info::new_scrollable("a\nb\nc");
    assert_eq!(info.text, "a\nb\nc");
    assert!(info.scrollable);
    assert!(!info.error);
    assert_eq!(info.last_line, 2);
    assert_eq!(info.offset, 0);
    info.on_event(&bare(Key::Up));
    assert_eq!(info.offset, 0);
    info.on_event(&bare(Key::Down));
    assert_eq!(info.offset, 1);
    info.on_event(&bare(Key::Down));
    info.on_event(&bare(Key::Down));
    assert_eq!(info.offset, 2);
    info.on_event(&bare(Key::Up));
    assert_eq!(info.offset, 1);
    info.on_event(&plain('x'));
    assert_eq!(info.offset, 1);
}

#[test]
fn a_fixed_panel_does_not_scroll() {
    let mut info = Info::new_fixed("a\nb");
    assert!(!info.scrollable);
    info.on_event(&bare(Key::Down));
    assert_eq!(info.offset, 0);
    let failure = Info::new_error("broken");
    assert!(failure.error);
    assert_eq!(failure.text, "broken");
}

#[test]
fn a_panel_is_made_from_a_result() {
    let fine = Info::new_from_result(Ok("done".to_string()));
    assert_eq!(fine.text, "done");
    assert!(!fine.error);
    let failed = Info::new_from_result(Err("refused".to_string()));
    assert_eq!(failed.text, "refused");
    assert!(failed.error);
}

#[test]
fn the_fetch_screen_opens_with_its_text() {
    let screen = FetchSystemContractScreenController::new();
    assert_eq!(screen.info.text, "Fetch system contracts");
    assert!(!screen.info.scrollable);
    assert!(!screen.info.error);
    assert_eq!(screen.name(), "System Contracts");
    assert_eq!(
        screen.command_keys(),
        vec![
            ScreenCommandKey::new("q", "Back to Contracts"),
            ScreenCommandKey::new("p", "Fetch Dashpay contract"),
            ScreenCommandKey::new("n", "Fetch DPNS contract"),
        ]
    );
    assert!(screen.toggle_keys().is_empty());
}

#[test]
fn the_fetch_screen_answers_its_keys() {
    let mut screen = FetchSystemContractScreenController::new();
    assert!(matches!(
        screen.on_event(Event::Key(plain('q'))),
        ScreenFeedback::PreviousScreen
    ));
    match screen.on_event(Event::Key(plain('p'))) {
        ScreenFeedback::Task { task, block } => {
            assert_eq!(task, Task::Contract(ContractTask::FetchDashpayContract));
            assert!(block);
        }
        _ => panic!("no task for p"),
    }
    match screen.on_event(Event::Key(plain('n'))) {
        ScreenFeedback::Task { task, block } => {
            assert_eq!(task, Task::Contract(ContractTask::FetchDPNSContract));
            assert!(block);
        }
        _ => panic!("no task for n"),
    }
    assert!(matches!(
        screen.on_event(Event::Key(ctrl('p'))),
        ScreenFeedback::Nothing
    ));
    assert!(matches!(
        screen.on_event(Event::Key(plain('x'))),
        ScreenFeedback::Nothing
    ));
    assert!(matches!(
        screen.on_event(Event::RedrawDebounceTimeout),
        ScreenFeedback::Nothing
    ));
    assert_eq!(screen.info.text, "Fetch system contracts");
}

#[test]
fn the_fetch_screen_shows_how_a_contract_task_ended() {
    let mut screen = FetchSystemContractScreenController::new();
    let feedback = screen.on_event(Event::Backend(BackendEvent::TaskCompleted {
        task: Task::Contract(ContractTask::FetchDashpayContract),
        execution_result: Ok(CompletedTaskPayload::Bytes(vec![1, 2])),
    }));
    assert!(matches!(feedback, ScreenFeedback::Redraw));
    assert_eq!(screen.info.text, "Successfully fetched a contract");
    assert!(!screen.info.error);

    let feedback = screen.on_event(Event::Backend(BackendEvent::TaskCompletedStateChange {
        task: Task::Contract(ContractTask::FetchDPNSContract),
        execution_result: Err(TaskError::Transport("no route".to_string())),
        state_diff: StateDiff::KnownIdentity(Identity {
            id: id(1),
            balance: 0,
        }),
    }));
    assert!(matches!(feedback, ScreenFeedback::Redraw));
    assert_eq!(screen.info.text, "no route");
    assert!(screen.info.error);

    let feedback = screen.on_event(Event::Backend(BackendEvent::TaskCompleted {
        task: Task::Wallet(WalletTask::Refresh),
        execution_result: Ok(CompletedTaskPayload::Done),
    }));
    assert!(matches!(feedback, ScreenFeedback::Nothing));
    assert_eq!(screen.info.text, "no route");
}

#[test]
fn errors_are_shown_by_their_reason() {
    assert_eq!(error_message(TaskError::Configuration("a".to_string())), "a");
    assert_eq!(error_message(TaskError::Transport("b".to_string())), "b");
    assert_eq!(
        error_message(TaskError::ProofVerification("c".to_string())),
        "c"
    );
}

#[test]
fn a_choice_moves_and_completes() {
    let mut input = SelectInput::new(vec![
        "one".to_string(),
        "two".to_string(),
        "three".to_string(),
    ]);
    assert_eq!(input.selected(), 0);
    assert_eq!(input.options().len(), 3);
    assert_eq!(input.on_event(bare(Key::Up)), InputStatus::Redraw);
    assert_eq!(input.selected(), 0);
    assert_eq!(input.on_event(bare(Key::Down)), InputStatus::Redraw);
    assert_eq!(input.selected(), 1);
    assert_eq!(
        input.on_event(bare(Key::Enter)),
        InputStatus::Done("two".to_string())
    );
    assert_eq!(input.on_event(bare(Key::Down)), InputStatus::Redraw);
    assert_eq!(input.on_event(bare(Key::Down)), InputStatus::Redraw);
    assert_eq!(input.selected(), 2);
    assert_eq!(
        input.on_event(bare(Key::Enter)),
        InputStatus::Done("three".to_string())
    );
    assert_eq!(input.on_event(bare(Key::Up)), InputStatus::Redraw);
    assert_eq!(input.selected(), 1);
    assert_eq!(input.on_event(ctrl('q')), InputStatus::Exit);
    assert_eq!(input.on_event(plain('q')), InputStatus::Nothing);
    assert_eq!(input.on_event(bare(Key::Esc)), InputStatus::Nothing);
    assert_eq!(input.selected(), 1);
}

#[test]
fn a_choice_among_nothing_never_completes() {
    let mut input = SelectInput::new(Vec::new());
    assert_eq!(input.on_event(bare(Key::Enter)), InputStatus::Nothing);
    assert_eq!(input.on_event(bare(Key::Down)), InputStatus::Redraw);
    assert_eq!(input.selected(), 0);
}

#[test]
fn options_stand_for_votes() {
    let contenders = contenders();
    assert_eq!(
        choice_for(&"Abstain".to_string(), &contenders),
        Some(ResourceVoteChoice::Abstain)
    );
    assert_eq!(
        choice_for(&"Lock".to_string(), &contenders),
        Some(ResourceVoteChoice::Lock)
    );
    assert_eq!(
        choice_for(&contenders.contenders[1].label, &contenders),
        Some(ResourceVoteChoice::TowardsIdentity(id(2)))
    );
    assert_eq!(choice_for(&"abstain".to_string(), &contenders), None);
    assert_eq!(choice_for(&"".to_string(), &contenders), None);
}

#[test]
fn the_vote_form_lists_abstain_lock_and_the_contenders() {
    let form = ContestedResourceVoteFormController::new(poll(), contenders());
    assert_eq!(
        form.options(),
        &vec![
            "Abstain".to_string(),
            "Lock".to_string(),
            "4vJ9JU1bJJE96FWSJKvHsmmFADCg4gpZQff4P3bkLKi".to_string(),
            "8qbHbw2BbbTHBW1sbeqakYXVKRQM8Ne7pLK7m6CVfeR".to_string(),
        ]
    );
    assert_eq!(form.selected(), 0);
    assert_eq!(form.form_name(), "Vote on contested resource");
    assert_eq!(form.step_name(), "");
    assert_eq!(form.step_index(), 0);
    assert_eq!(form.steps_number(), 1);
}

fn vote_after(downs: usize) -> FormStatus {
    let mut form = ContestedResourceVoteFormController::new(poll(), contenders());
    for _ in 0..downs {
        assert_eq!(form.on_event(bare(Key::Down)), FormStatus::Redraw);
    }
    form.on_event(bare(Key::Enter))
}

fn vote(choice: ResourceVoteChoice) -> FormStatus {
    FormStatus::Done {
        task: Task::Document(DocumentTask::VoteOnContestedResource(
            VotePoll::ContestedDocumentResourceVotePoll(poll()),
            choice,
        )),
        block: true,
    }
}

#[test]
fn the_vote_form_casts_the_vote_chosen() {
    assert_eq!(vote_after(0), vote(ResourceVoteChoice::Abstain));
    assert_eq!(vote_after(1), vote(ResourceVoteChoice::Lock));
    assert_eq!(vote_after(2), vote(ResourceVoteChoice::TowardsIdentity(id(1))));
    assert_eq!(vote_after(3), vote(ResourceVoteChoice::TowardsIdentity(id(2))));
    assert_eq!(vote_after(9), vote(ResourceVoteChoice::TowardsIdentity(id(2))));
}

#[test]
fn the_vote_form_can_be_left() {
    let mut form = ContestedResourceVoteFormController::new(poll(), contenders());
    assert_eq!(form.on_event(ctrl('q')), FormStatus::Exit);
    assert_eq!(form.on_event(plain('x')), FormStatus::Nothing);
    assert_eq!(form.on_event(bare(Key::Up)), FormStatus::Redraw);
    assert_eq!(form.selected(), 0);
}

#[test]
fn the_resources_screen_opens_on_the_first_resource() {
    let screen = screen(&["dash", "dashpay", "dpns"]);
    assert_eq!(screen.selected(), 0);
    assert_eq!(screen.current_batch(), &batch(&["dash", "dashpay", "dpns"]));
    assert_eq!(screen.get_selected_resource(), Some(&value("dash")));
    assert_eq!(screen.resource_view().text, value("dash").toml);
    assert!(screen.resource_view().scrollable);
    assert_eq!(screen.resource_view().offset, 0);
    assert!(screen.can_vote());
    assert_eq!(screen.name(), "Contested resources");
    assert!(screen.toggle_keys().is_empty());
    assert_eq!(
        screen.command_keys(),
        vec![
            ScreenCommandKey::new("q", "Back"),
            ScreenCommandKey::new("C-n", "Next resource"),
            ScreenCommandKey::new("C-p", "Prev resource"),
            ScreenCommandKey::new("↓", "Scroll down"),
            ScreenCommandKey::new("↑", "Scroll up"),
            ScreenCommandKey::new("v", "Vote"),
        ]
    );
}

#[test]
fn the_resources_screen_without_resources_shows_nothing() {
    let mut screen = screen(&[]);
    assert_eq!(screen.selected(), 0);
    assert_eq!(screen.get_selected_resource(), None);
    assert_eq!(screen.resource_view().text, "");
    assert!(!screen.can_vote());
    assert!(matches!(
        screen.on_event(&Event::Key(ctrl('n'))),
        ScreenFeedback::Redraw
    ));
    assert_eq!(screen.selected(), 0);
    assert_eq!(screen.get_selected_resource(), None);
}

#[test]
fn the_cursor_moves_over_the_resources() {
    let mut screen = screen(&["dash", "dashpay", "dpns"]);
    assert!(matches!(
        screen.on_event(&Event::Key(ctrl('p'))),
        ScreenFeedback::Redraw
    ));
    assert_eq!(screen.selected(), 0);
    assert!(matches!(
        screen.on_event(&Event::Key(ctrl('n'))),
        ScreenFeedback::Redraw
    ));
    assert_eq!(screen.selected(), 1);
    assert_eq!(screen.get_selected_resource(), Some(&value("dashpay")));
    assert_eq!(screen.resource_view().text, value("dashpay").toml);
    screen.on_event(&Event::Key(ctrl('n')));
    screen.on_event(&Event::Key(ctrl('n')));
    assert_eq!(screen.selected(), 2);
    assert_eq!(screen.get_selected_resource(), Some(&value("dpns")));
    screen.on_event(&Event::Key(ctrl('p')));
    assert_eq!(screen.selected(), 1);
    assert_eq!(screen.resource_view().text, value("dashpay").toml);
}

#[test]
fn the_detail_panel_scrolls_and_starts_anew_on_a_move() {
    let mut screen = screen(&["dash", "dashpay"]);
    assert!(matches!(
        screen.on_event(&Event::Key(bare(Key::Down))),
        ScreenFeedback::Redraw
    ));
    assert_eq!(screen.resource_view().offset, 1);
    screen.on_event(&Event::Key(bare(Key::Down)));
    screen.on_event(&Event::Key(bare(Key::Down)));
    assert_eq!(screen.resource_view().offset, 2);
    assert!(matches!(
        screen.on_event(&Event::Key(bare(Key::Up))),
        ScreenFeedback::Redraw
    ));
    assert_eq!(screen.resource_view().offset, 1);
    assert_eq!(screen.selected(), 0);
    screen.on_event(&Event::Key(ctrl('n')));
    assert_eq!(screen.resource_view().offset, 0);
}

#[test]
fn the_vote_key_asks_for_the_contenders() {
    let mut screen = screen(&["dash", "dashpay"]);
    screen.on_event(&Event::Key(ctrl('n')));
    assert!(screen.can_vote());
    match screen.on_event(&Event::Key(plain('v'))) {
        ScreenFeedback::Task { task, block } => {
            assert!(block);
            assert_eq!(
                task,
                Task::Document(DocumentTask::QueryVoteContenders(
                    "parentNameAndLabel".to_string(),
                    vec![value("dashpay")],
                    "domain".to_string(),
                    id(9),
                ))
            );
        }
        _ => panic!("no task for v"),
    }
    assert_eq!(screen.selected(), 1);
}

#[test]
fn nothing_to_vote_on_without_a_contested_index() {
    let screen = ContestedResourcesScreenController::new(
        batch(&["dash"]),
        DataContract { id: id(9) },
        document_type(None),
    );
    assert!(!screen.can_vote());
}

#[test]
fn the_resources_screen_goes_back_and_ignores_the_rest() {
    let mut screen = screen(&["dash"]);
    assert!(matches!(
        screen.on_event(&Event::Key(plain('q'))),
        ScreenFeedback::PreviousScreen
    ));
    assert!(matches!(
        screen.on_event(&Event::Key(plain('n'))),
        ScreenFeedback::Nothing
    ));
    assert!(matches!(
        screen.on_event(&Event::RedrawDebounceTimeout),
        ScreenFeedback::Nothing
    ));
    assert!(matches!(
        screen.on_event(&Event::Backend(BackendEvent::TaskCompleted {
            task: query(),
            execution_result: Err(TaskError::Transport("down".to_string())),
        })),
        ScreenFeedback::Nothing
    ));
    assert!(matches!(
        screen.on_event(&Event::Backend(BackendEvent::TaskCompleted {
            task: Task::Wallet(WalletTask::Refresh),
            execution_result: Ok(CompletedTaskPayload::ContestedResourceContenders(
                poll(),
                contenders()
            )),
        })),
        ScreenFeedback::Nothing
    ));
    assert_eq!(screen.selected(), 0);
}

#[test]
fn contenders_open_the_vote_form() {
    let mut screen = screen(&["dash"]);
    let feedback = screen.on_event(&Event::Backend(BackendEvent::TaskCompleted {
        task: query(),
        execution_result: Ok(CompletedTaskPayload::ContestedResourceContenders(
            poll(),
            contenders(),
        )),
    }));
    match feedback {
        ScreenFeedback::Form(mut form) => {
            assert_eq!(form.options().len(), 4);
            assert_eq!(form.options()[2], contenders().contenders[0].label);
            form.on_event(bare(Key::Down));
            form.on_event(bare(Key::Down));
            assert_eq!(
                form.on_event(bare(Key::Enter)),
                vote(ResourceVoteChoice::TowardsIdentity(id(1)))
            );
        }
        _ => panic!("no form"),
    }
}

#[test]
fn a_blocking_task_keeps_others_back_until_it_completes() {
    let mut latch = DispatchLatch::new();
    assert!(!latch.blocked);
    assert_eq!(
        latch.request(query(), true),
        UiFeedback::ExecuteTask(query(), true)
    );
    assert!(latch.blocked);
    assert_eq!(
        latch.request(Task::Wallet(WalletTask::Refresh), false),
        UiFeedback::Nothing
    );
    latch.observe(&Event::Key(plain('x')));
    assert!(latch.blocked);
    latch.observe(&Event::RedrawDebounceTimeout);
    assert!(latch.blocked);
    latch.observe(&Event::Backend(BackendEvent::TaskCompleted {
        task: query(),
        execution_result: Ok(CompletedTaskPayload::Done),
    }));
    assert!(!latch.blocked);
    assert_eq!(
        latch.request(Task::Wallet(WalletTask::Refresh), false),
        UiFeedback::ExecuteTask(Task::Wallet(WalletTask::Refresh), false)
    );
    assert!(!latch.blocked);
    assert_eq!(
        latch.request(query(), false),
        UiFeedback::ExecuteTask(query(), false)
    );
}
