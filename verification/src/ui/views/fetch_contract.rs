//! The screen that fetches the system contracts.

use vstd::prelude::*;
use crate::event::Event;
use crate::keys::KeyEvent;
use crate::task::{BackendEvent, ContractTask, Task, TaskError};
use crate::ui::info::Info;
use crate::ui::screen::{ScreenCommandKey, ScreenFeedback, ScreenToggleKey};

verus! {

/// The text that a task error is shown with.
pub open spec fn error_text(error: TaskError) -> Seq<char> {
    match error {
        TaskError::Configuration(reason) => reason@,
        TaskError::Transport(reason) => reason@,
        TaskError::ProofVerification(reason) => reason@,
    }
}

/// The text that a task error is shown with.
pub fn error_message(error: TaskError) -> (text: String)
    ensures
        text@ == error_text(error),
{
    match error {
        TaskError::Configuration(reason) => reason,
        TaskError::Transport(reason) => reason,
        TaskError::ProofVerification(reason) => reason,
    }
}

/// The screen that fetches the system contracts.
pub struct FetchSystemContractScreenController {
    pub info: Info,
}

impl FetchSystemContractScreenController {
    /// The screen as it opens.
    pub fn new() -> (screen: FetchSystemContractScreenController)
        ensures
            screen.info.holds("Fetch system contracts"@, false, false),
    {
        FetchSystemContractScreenController { info: Info::new_fixed("Fetch system contracts") }
    }

    /// The name of the screen.
    pub fn name(&self) -> (name: &'static str)
        ensures
            name@ == "System Contracts"@,
    {
        "System Contracts"
    }

    /// The keys that the screen answers to.
    pub fn command_keys(&self) -> (keys: Vec<ScreenCommandKey>)
        ensures
            keys@ == seq![
                ScreenCommandKey { keybinding: "q", description: "Back to Contracts" },
                ScreenCommandKey { keybinding: "p", description: "Fetch Dashpay contract" },
                ScreenCommandKey { keybinding: "n", description: "Fetch DPNS contract" },
            ],
    {
        let mut keys: Vec<ScreenCommandKey> = Vec::new();
        keys.push(ScreenCommandKey::new("q", "Back to Contracts"));
        keys.push(ScreenCommandKey::new("p", "Fetch Dashpay contract"));
        keys.push(ScreenCommandKey::new("n", "Fetch DPNS contract"));
        assert(keys@ =~= seq![
            ScreenCommandKey { keybinding: "q", description: "Back to Contracts" },
            ScreenCommandKey { keybinding: "p", description: "Fetch Dashpay contract" },
            ScreenCommandKey { keybinding: "n", description: "Fetch DPNS contract" },
        ]);
        keys
    }

    /// The keys that switch something on this screen: none.
    pub fn toggle_keys(&self) -> (keys: Vec<ScreenToggleKey>)
        ensures
            keys@.len() == 0,
    {
        Vec::new()
    }

    /// Whether `event` reports on a contract task, and how that task ended.
    pub open spec fn contract_result(event: Event) -> Option<Result<(), TaskError>> {
        match event {
            Event::Backend(backend) => match backend.spec_task() {
                Task::Contract(_) => Some(
                    match backend.spec_execution_result() {
                        Ok(_) => Ok(()),
                        Err(error) => Err(error),
                    },
                ),
                _ => None,
            },
            _ => None,
        }
    }

    /// Takes an event.
    ///
    /// `q` goes back to the screen before, `p` fetches the Dashpay contract
    /// and `n` the DPNS contract, each with no modifier held. The completion
    /// of a contract task shows that the contract was fetched, or why it was
    /// not. Anything else changes nothing.
    pub fn on_event(&mut self, event: Event) -> (feedback: ScreenFeedback)
        ensures
            event == Event::Key(KeyEvent::plain('q')) ==> feedback is PreviousScreen,
            event == Event::Key(KeyEvent::plain('p')) ==> feedback == (ScreenFeedback::Task {
                task: Task::Contract(ContractTask::FetchDashpayContract),
                block: true,
            }),
            event == Event::Key(KeyEvent::plain('n')) ==> feedback == (ScreenFeedback::Task {
                task: Task::Contract(ContractTask::FetchDPNSContract),
                block: true,
            }),
            Self::contract_result(event) is Some ==> feedback is Redraw,
            Self::contract_result(event) == Some(Ok::<(), TaskError>(())) ==> final(self).info.holds(
                "Successfully fetched a contract"@,
                false,
                false,
            ),
            Self::contract_result(event) matches Some(Err(error)) ==> final(self).info.holds(
                error_text(error),
                false,
                true,
            ),
            Self::contract_result(event) is None ==> final(self).info == old(self).info,
            Self::contract_result(event) is None && event != Event::Key(KeyEvent::plain('q')) && event
                != Event::Key(KeyEvent::plain('p')) && event != Event::Key(KeyEvent::plain('n'))
                ==> feedback is Nothing,
    {
        match event {
            Event::Key(key) => {
                if key.is_plain('q') {
                    ScreenFeedback::PreviousScreen
                } else if key.is_plain('p') {
                    ScreenFeedback::Task {
                        task: Task::Contract(ContractTask::FetchDashpayContract),
                        block: true,
                    }
                } else if key.is_plain('n') {
                    ScreenFeedback::Task {
                        task: Task::Contract(ContractTask::FetchDPNSContract),
                        block: true,
                    }
                } else {
                    ScreenFeedback::Nothing
                }
            },
            Event::Backend(BackendEvent::TaskCompleted { task: Task::Contract(_), execution_result }) => {
                self.show(execution_result.is_ok(), execution_result.err());
                ScreenFeedback::Redraw
            },
            Event::Backend(
                BackendEvent::TaskCompletedStateChange { task: Task::Contract(_), execution_result, .. },
            ) => {
                self.show(execution_result.is_ok(), execution_result.err());
                ScreenFeedback::Redraw
            },
            _ => ScreenFeedback::Nothing,
        }
    }

    fn show(&mut self, fetched: bool, error: Option<TaskError>)
        ensures
            fetched ==> final(self).info.holds("Successfully fetched a contract"@, false, false),
            !fetched && error is Some ==> final(self).info.holds(error_text(error->0), false, true),
    {
        if fetched {
            self.info = Info::new_from_result(Ok("Successfully fetched a contract".to_owned()));
        } else {
            match error {
                Some(error) => {
                    self.info = Info::new_from_result(Err(error_message(error)));
                },
                None => {},
            }
        }
    }
}

} // verus!
