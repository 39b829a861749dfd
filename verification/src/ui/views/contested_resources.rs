//! The screen of contested resources, and the form to vote on one.

use vstd::prelude::*;
use vstd::utf8::encode_utf8;
use tui_realm_stdlib::List;
use crate::event::Event;
use crate::identifier::Identifier;
use crate::keys::{Key, KeyEvent};
use crate::task::{
    value_views, BackendEvent, CompletedTaskPayload, ContenderView, Contenders,
    ContestedDocumentResourceVotePoll, DocumentTask, ResourceValue, ResourceValueView,
    ResourceVoteChoice, Task, VotePoll, VotePollView,
};
use crate::ui::form::{status_of_input, texts, FormStatus, InputStatus, SelectInput, SelectView};
use crate::ui::info::{line_breaks, Info};
use crate::ui::list::{
    index_above, index_below, list_index, list_len, list_rewinds, move_down, move_up, scrolling_list,
    selected_index,
};
use crate::ui::screen::{ScreenCommandKey, ScreenFeedback, ScreenToggleKey};

verus! {

/// A resource that identities contend for.
#[derive(Clone, Debug, PartialEq, Eq)]
pub enum ContestedResource {
    Value(ResourceValue),
}

/// The contested resources of one query.
#[derive(Clone, Debug, PartialEq, Eq)]
pub struct ContestedResources(pub Vec<ContestedResource>);

/// What the screen reads of the data contract that the resources belong to.
#[derive(Clone, Copy, Debug, PartialEq, Eq)]
pub struct DataContract {
    pub id: Identifier,
}

/// What the screen reads of the document type that the resources belong to:
/// its name, and the name of its contested index, if it has one.
#[derive(Clone, Debug, PartialEq, Eq)]
pub struct DocumentType {
    pub name: String,
    pub contested_index: Option<String>,
}

/// The value of a resource.
pub open spec fn value_of(resource: ContestedResource) -> ResourceValue {
    match resource {
        ContestedResource::Value(value) => value,
    }
}

/// The values of `batch`, in order.
pub open spec fn batch_views(batch: Seq<ContestedResource>) -> Seq<ResourceValueView> {
    Seq::new(batch.len(), |i: int| value_of(batch[i])@)
}

/// The text that the detail panel shows when the cursor is on `index`: the
/// resource there as TOML, or nothing where there is no resource.
pub open spec fn details_at(batch: Seq<ResourceValueView>, index: nat) -> Seq<char> {
    if index < batch.len() {
        batch[index as int].toml
    } else {
        Seq::empty()
    }
}

/// The options of a vote: to abstain, to lock, and one for each contender.
pub open spec fn vote_options(contenders: Seq<ContenderView>) -> Seq<Seq<char>> {
    seq!["Abstain"@, "Lock"@] + Seq::new(contenders.len(), |i: int| contenders[i].label)
}

/// Whether `at` is the first contender with this label.
pub open spec fn first_labelled(contenders: Seq<ContenderView>, label: Seq<char>, at: int) -> bool {
    &&& 0 <= at < contenders.len()
    &&& contenders[at].label == label
    &&& forall|j: int| 0 <= j < at ==> (#[trigger] contenders[j]).label != label
}

/// The vote that the option `vote` stands for: `Abstain` and `Lock` for the
/// options of these names, and a vote for the first contender with that
/// label for any other. No vote where no contender has the label.
pub open spec fn choice_of(vote: Seq<char>, contenders: Seq<ContenderView>) -> Option<
    ResourceVoteChoice,
> {
    if vote == "Abstain"@ {
        Some(ResourceVoteChoice::Abstain)
    } else if vote == "Lock"@ {
        Some(ResourceVoteChoice::Lock)
    } else if exists|at: int| first_labelled(contenders, vote, at) {
        Some(
            ResourceVoteChoice::TowardsIdentity(
                contenders[choose|at: int| first_labelled(contenders, vote, at)].id,
            ),
        )
    } else {
        None
    }
}

/// Finds the vote that the option `vote` stands for.
pub fn choice_for(vote: &String, contenders: &Contenders) -> (choice: Option<ResourceVoteChoice>)
    ensures
        choice == choice_of(vote@, contenders@),
{
    if *vote == "Abstain".to_owned() {
        return Some(ResourceVoteChoice::Abstain);
    }
    if *vote == "Lock".to_owned() {
        return Some(ResourceVoteChoice::Lock);
    }
    let mut i: usize = 0;
    while i < contenders.contenders.len()
        invariant
            i <= contenders.contenders.len(),
            vote@ != "Abstain"@,
            vote@ != "Lock"@,
            forall|j: int| 0 <= j < i ==> (#[trigger] contenders@[j]).label != vote@,
        decreases contenders.contenders.len() - i,
    {
        if contenders.contenders[i].label == *vote {
            assert(contenders@[i as int].label == vote@);
            assert(first_labelled(contenders@, vote@, i as int));
            return Some(ResourceVoteChoice::TowardsIdentity(contenders.contenders[i].id));
        }
        i += 1;
    }
    None
}

/// The vote form, as the contracts speak of it.
pub struct VoteFormView {
    pub input: SelectView,
    pub vote_poll: VotePollView,
    pub contenders: Seq<ContenderView>,
}

impl VoteFormView {
    /// The form as it opens: the cursor on the first option.
    pub open spec fn opened(vote_poll: VotePollView, contenders: Seq<ContenderView>) -> VoteFormView {
        VoteFormView {
            input: SelectView { options: vote_options(contenders), selected: 0 },
            vote_poll,
            contenders,
        }
    }

    /// Whether `task` casts `choice` in the poll of this form.
    pub open spec fn casts(self, task: Task, choice: ResourceVoteChoice) -> bool {
        &&& task matches Task::Document(
            DocumentTask::VoteOnContestedResource(
                VotePoll::ContestedDocumentResourceVotePoll(vote_poll),
                cast,
            ),
        )
        &&& vote_poll@ == self.vote_poll
        &&& cast == choice
    }

    /// Whether `status` is what the form answers to `event`: the vote that the
    /// chosen option stands for, as a task that blocks, where the input is
    /// complete; and what the input answered where it is not.
    pub open spec fn answers(self, event: KeyEvent, status: FormStatus) -> bool {
        match self.input.answer(event) {
            InputStatus::Done(vote) => match choice_of(vote, self.contenders) {
                Some(choice) => {
                    &&& status matches FormStatus::Done { task, block }
                    &&& block
                    &&& self.casts(task, choice)
                },
                None => status is Nothing,
            },
            other => status == status_of_input(other),
        }
    }
}

/// The form to vote on a contested resource.
pub struct ContestedResourceVoteFormController {
    input: SelectInput,
    vote_poll: ContestedDocumentResourceVotePoll,
    contenders: Contenders,
}

impl View for ContestedResourceVoteFormController {
    type V = VoteFormView;

    closed spec fn view(&self) -> VoteFormView {
        VoteFormView { input: self.input@, vote_poll: self.vote_poll@, contenders: self.contenders@ }
    }
}

impl ContestedResourceVoteFormController {
    /// What holds of every form: its options are those of its contenders.
    pub closed spec fn wf(&self) -> bool {
        &&& self.input.wf()
        &&& self.input@.options == vote_options(self.contenders@)
    }

    /// The form for a poll and those who contend in it.
    pub fn new(vote_poll: ContestedDocumentResourceVotePoll, contenders: Contenders) -> (form:
        ContestedResourceVoteFormController)
        ensures
            form.wf(),
            form@ == VoteFormView::opened(vote_poll@, contenders@),
    {
        let mut options: Vec<String> = Vec::new();
        options.push("Abstain".to_owned());
        options.push("Lock".to_owned());
        let mut i: usize = 0;
        while i < contenders.contenders.len()
            invariant
                i <= contenders.contenders.len(),
                options@.len() == i + 2,
                options@[0]@ == "Abstain"@,
                options@[1]@ == "Lock"@,
                forall|j: int| 0 <= j < i ==> (#[trigger] options@[j + 2])@ == contenders@[j].label,
            decreases contenders.contenders.len() - i,
        {
            options.push(contenders.contenders[i].label.clone());
            i += 1;
        }
        assert(texts(options@) =~= vote_options(contenders@)) by {
            let wanted = vote_options(contenders@);
            assert(wanted.len() == options@.len());
            assert forall|k: int| 0 <= k < wanted.len() implies texts(options@)[k] == wanted[k] by {
                if k >= 2 {
                    assert(options@[(k - 2) + 2]@ == contenders@[k - 2].label);
                }
            }
        }
        ContestedResourceVoteFormController { input: SelectInput::new(options), vote_poll, contenders }
    }

    /// The options of the vote, in order.
    pub fn options(&self) -> (options: &Vec<String>)
        ensures
            texts(options@) == self@.input.options,
    {
        self.input.options()
    }

    /// The index of the option that the cursor is on.
    pub fn selected(&self) -> (selected: usize)
        ensures
            selected == self@.input.selected,
    {
        self.input.selected()
    }

    /// Takes a key.
    pub fn on_event(&mut self, event: KeyEvent) -> (status: FormStatus)
        requires
            old(self).wf(),
        ensures
            final(self).wf(),
            final(self)@ == (VoteFormView { input: old(self)@.input.after(event), ..old(self)@ }),
            old(self)@.answers(event, status),
    {
        match self.input.on_event(event) {
            InputStatus::Done(vote) => match choice_for(&vote, &self.contenders) {
                Some(choice) => FormStatus::Done {
                    task: Task::Document(
                        DocumentTask::VoteOnContestedResource(
                            VotePoll::ContestedDocumentResourceVotePoll(self.vote_poll.duplicate()),
                            choice,
                        ),
                    ),
                    block: true,
                },
                None => FormStatus::Nothing,
            },
            InputStatus::Redraw => FormStatus::Redraw,
            InputStatus::Exit => FormStatus::Exit,
            InputStatus::Nothing => FormStatus::Nothing,
        }
    }

    /// The name of the form.
    pub fn form_name(&self) -> (name: &'static str)
        ensures
            name@ == "Vote on contested resource"@,
    {
        "Vote on contested resource"
    }

    /// The name of the step that the form is at: it has one step, with no name.
    pub fn step_name(&self) -> (name: &'static str)
        ensures
            name@ == ""@,
    {
        ""
    }

    /// The index of the step that the form is at.
    pub fn step_index(&self) -> (index: u8)
        ensures
            index == 0,
    {
        0
    }

    /// The number of steps of the form.
    pub fn steps_number(&self) -> (number: u8)
        ensures
            number == 1,
    {
        1
    }
}

/// Every option of a vote stands for a vote: a form that is complete always
/// has a task to hand on.
pub proof fn every_option_is_a_vote(contenders: Seq<ContenderView>, at: int)
    requires
        0 <= at < vote_options(contenders).len(),
    ensures
        choice_of(vote_options(contenders)[at], contenders) is Some,
        at == 0 ==> choice_of(vote_options(contenders)[at], contenders) == Some(
            ResourceVoteChoice::Abstain,
        ),
{
    let vote = vote_options(contenders)[at];
    if vote != "Abstain"@ && vote != "Lock"@ {
        assert(at >= 2);
        assert(contenders[at - 2].label == vote);
        first_labelled_exists(contenders, vote, at - 2);
    }
}

/// Where a contender has a label, there is a first one that has it.
proof fn first_labelled_exists(contenders: Seq<ContenderView>, label: Seq<char>, at: int)
    requires
        0 <= at < contenders.len(),
        contenders[at].label == label,
    ensures
        exists|first: int| first_labelled(contenders, label, first),
    decreases at,
{
    if exists|j: int| 0 <= j < at && (#[trigger] contenders[j]).label == label {
        let j = choose|j: int| 0 <= j < at && (#[trigger] contenders[j]).label == label;
        first_labelled_exists(contenders, label, j);
    } else {
        assert(first_labelled(contenders, label, at));
    }
}

/// The completion that opens the vote form: the contenders that a query for
/// them found, with their poll.
pub open spec fn contenders_found(event: Event) -> Option<
    (ContestedDocumentResourceVotePoll, Contenders),
> {
    match event {
        Event::Backend(
            BackendEvent::TaskCompleted {
                task: Task::Document(DocumentTask::QueryVoteContenders(_, _, _, _)),
                execution_result: Ok(
                    CompletedTaskPayload::ContestedResourceContenders(vote_poll, contenders),
                ),
            },
        ) => Some((vote_poll, contenders)),
        _ => None,
    }
}

/// The screen of contested resources, as the contracts speak of it.
pub struct ContestedResourcesView {
    /// The resources, in order.
    pub batch: Seq<ResourceValueView>,
    /// The index of the resource that the cursor is on.
    pub selected: nat,
    /// The text of the detail panel.
    pub shown: Seq<char>,
    /// The index of the line that the detail panel starts at.
    pub offset: nat,
    pub contract_id: Identifier,
    pub document_type_name: Seq<char>,
    pub contested_index: Option<Seq<char>>,
}

impl ContestedResourcesView {
    /// The cursor is on a resource, if there is one; the detail panel shows
    /// that resource, and is scrolled no further than its last line.
    pub open spec fn wf(self) -> bool {
        &&& if self.batch.len() == 0 {
            self.selected == 0
        } else {
            self.selected < self.batch.len()
        }
        &&& self.shown == details_at(self.batch, self.selected)
        &&& self.offset <= line_breaks(encode_utf8(self.shown))
    }

    /// The screen with the cursor on `index`, and the detail panel on the
    /// first line of the resource there.
    pub open spec fn select(self, index: nat) -> ContestedResourcesView {
        ContestedResourcesView {
            selected: index,
            shown: details_at(self.batch, index),
            offset: 0,
            ..self
        }
    }

    /// The screen with the detail panel scrolled by one line: down on `Down`
    /// unless it is at the last line, up on `Up` unless it is at the first.
    pub open spec fn scrolled(self, key: KeyEvent) -> ContestedResourcesView {
        if key.code == Key::Down && self.offset < line_breaks(encode_utf8(self.shown)) {
            ContestedResourcesView { offset: self.offset + 1, ..self }
        } else if key.code == Key::Up && self.offset > 0 {
            ContestedResourcesView { offset: (self.offset - 1) as nat, ..self }
        } else {
            self
        }
    }

    /// The screen after an event. `Down` and `Up` with no modifier scroll the
    /// detail panel; control with `n` and with `p` move the cursor to the next
    /// and to the previous resource. Nothing else changes the screen.
    pub open spec fn after(self, event: Event) -> ContestedResourcesView {
        match event {
            Event::Key(key) => if key == KeyEvent::bare(Key::Down) || key == KeyEvent::bare(Key::Up) {
                self.scrolled(key)
            } else if key == KeyEvent::ctrl('n') {
                self.select(index_below(self.selected, self.batch.len(), false))
            } else if key == KeyEvent::ctrl('p') {
                self.select(index_above(self.selected, self.batch.len(), false))
            } else {
                self
            },
            _ => self,
        }
    }

    /// Whether there is something to vote on: the cursor is on a resource, and
    /// the document type has a contested index.
    pub open spec fn can_vote(self) -> bool {
        self.selected < self.batch.len() && self.contested_index is Some
    }

    /// Whether `task` asks who contends for the resource that the cursor is
    /// on.
    pub open spec fn asks_contenders(self, task: Task) -> bool {
        &&& task matches Task::Document(
            DocumentTask::QueryVoteContenders(index_name, index_values, kind_name, contract_id),
        )
        &&& Some(index_name@) == self.contested_index
        &&& value_views(index_values@) == seq![self.batch[self.selected as int]]
        &&& kind_name@ == self.document_type_name
        &&& contract_id == self.contract_id
    }

    /// Whether `feedback` is what the screen answers to `event`.
    ///
    /// `q` goes back to the screen before. `v` asks who contends for the
    /// resource that the cursor is on, as a task that blocks. The keys that
    /// scroll and move ask for a redraw. The contenders that such a task
    /// found open the vote form. Anything else gets no answer.
    pub open spec fn answers(self, event: Event, feedback: ScreenFeedback) -> bool {
        match event {
            Event::Key(key) => if key == KeyEvent::plain('q') {
                feedback is PreviousScreen
            } else if key == KeyEvent::plain('v') {
                &&& feedback matches ScreenFeedback::Task { task, block }
                &&& block
                &&& self.asks_contenders(task)
            } else if key == KeyEvent::bare(Key::Down) || key == KeyEvent::bare(Key::Up) || key
                == KeyEvent::ctrl('n') || key == KeyEvent::ctrl('p') {
                feedback is Redraw
            } else {
                feedback is Nothing
            },
            _ => match contenders_found(event) {
                Some((vote_poll, contenders)) => {
                    &&& feedback matches ScreenFeedback::Form(form)
                    &&& form.wf()
                    &&& form@ == VoteFormView::opened(vote_poll@, contenders@)
                },
                None => feedback is Nothing,
            },
        }
    }
}

/// The screen of contested resources.
pub struct ContestedResourcesScreenController {
    current_batch: ContestedResources,
    resource_select: List,
    resource_view: Info,
    data_contract: DataContract,
    document_type: DocumentType,
}

impl View for ContestedResourcesScreenController {
    type V = ContestedResourcesView;

    closed spec fn view(&self) -> ContestedResourcesView {
        ContestedResourcesView {
            batch: batch_views(self.current_batch.0@),
            selected: list_index(self.resource_select),
            shown: self.resource_view.text@,
            offset: self.resource_view.offset as nat,
            contract_id: self.data_contract.id,
            document_type_name: self.document_type.name@,
            contested_index: match self.document_type.contested_index {
                Some(name) => Some(name@),
                None => None,
            },
        }
    }
}

impl ContestedResourcesScreenController {
    /// What holds of the list: it counts the resources, and does not go round.
    spec fn wf_list(&self) -> bool {
        &&& list_len(self.resource_select) == self.current_batch.0@.len()
        &&& !list_rewinds(self.resource_select)
        &&& self.resource_view.scrollable
        &&& !self.resource_view.error
    }

    /// What holds of every screen that this module made.
    pub closed spec fn wf(&self) -> bool {
        &&& self.wf_list()
        &&& self@.wf()
        &&& self.resource_view.last_line == line_breaks(encode_utf8(self.resource_view.text@))
    }

    fn details(&self, index: usize) -> (info: Info)
        ensures
            info.holds(details_at(self@.batch, index as nat), true, false),
    {
        if index < self.current_batch.0.len() {
            match &self.current_batch.0[index] {
                ContestedResource::Value(value) => Info::new_scrollable(value.toml.as_str()),
            }
        } else {
            proof {
                reveal_strlit("");
            }
            assert(""@ =~= Seq::<char>::empty());
            Info::new_scrollable("")
        }
    }

    /// The screen for a batch of resources of a document type of a contract,
    /// with the cursor on the first resource.
    pub fn new(
        current_batch: ContestedResources,
        data_contract: DataContract,
        document_type: DocumentType,
    ) -> (screen: ContestedResourcesScreenController)
        ensures
            screen.wf(),
            screen@ == (ContestedResourcesView {
                batch: batch_views(current_batch.0@),
                selected: 0,
                shown: details_at(batch_views(current_batch.0@), 0),
                offset: 0,
                contract_id: data_contract.id,
                document_type_name: document_type.name@,
                contested_index: match document_type.contested_index {
                    Some(name) => Some(name@),
                    None => None,
                },
            }),
    {
        let mut rows: Vec<String> = Vec::new();
        let mut i: usize = 0;
        while i < current_batch.0.len()
            invariant
                i <= current_batch.0.len(),
                rows@.len() == i,
            decreases current_batch.0.len() - i,
        {
            match &current_batch.0[i] {
                ContestedResource::Value(value) => {
                    rows.push(value.text.clone());
                },
            }
            i += 1;
        }
        let resource_select = scrolling_list(&rows);
        let mut screen = ContestedResourcesScreenController {
            current_batch,
            resource_select,
            resource_view: Info::new_fixed(""),
            data_contract,
            document_type,
        };
        screen.resource_view = screen.details(0);
        screen
    }

    fn update_resource_view(&mut self)
        requires
            old(self).wf_list(),
            old(self).current_batch.0@.len() == 0 ==> list_index(old(self).resource_select) == 0,
            old(self).current_batch.0@.len() > 0 ==> list_index(old(self).resource_select) < old(
                self,
            ).current_batch.0@.len(),
        ensures
            final(self).wf(),
            final(self)@ == old(self)@.select(old(self)@.selected),
            final(self).resource_select == old(self).resource_select,
    {
        self.resource_view = self.details(selected_index(&self.resource_select));
    }

    /// The resource that the cursor is on.
    pub fn get_selected_resource(&self) -> (resource: Option<&ResourceValue>)
        ensures
            match resource {
                Some(value) => self@.selected < self@.batch.len() && value@
                    == self@.batch[self@.selected as int],
                None => self@.selected >= self@.batch.len(),
            },
    {
        let selected_index = selected_index(&self.resource_select);
        if selected_index < self.current_batch.0.len() {
            match &self.current_batch.0[selected_index] {
                ContestedResource::Value(value) => Some(value),
            }
        } else {
            None
        }
    }

    /// The resources of the screen.
    pub fn current_batch(&self) -> (batch: &ContestedResources)
        ensures
            batch_views(batch.0@) == self@.batch,
    {
        &self.current_batch
    }

    /// The index of the resource that the cursor is on.
    pub fn selected(&self) -> (selected: usize)
        ensures
            selected == self@.selected,
    {
        selected_index(&self.resource_select)
    }

    /// The detail panel.
    pub fn resource_view(&self) -> (panel: &Info)
        ensures
            panel.text@ == self@.shown,
            panel.offset == self@.offset,
    {
        &self.resource_view
    }

    /// Whether there is something to vote on.
    pub fn can_vote(&self) -> (yes: bool)
        ensures
            yes == self@.can_vote(),
    {
        selected_index(&self.resource_select) < self.current_batch.0.len()
            && self.document_type.contested_index.is_some()
    }

    /// The name of the screen.
    pub fn name(&self) -> (name: &'static str)
        ensures
            name@ == "Contested resources"@,
    {
        "Contested resources"
    }

    /// The keys that the screen answers to.
    pub fn command_keys(&self) -> (keys: Vec<ScreenCommandKey>)
        ensures
            keys@ == seq![
                ScreenCommandKey { keybinding: "q", description: "Back" },
                ScreenCommandKey { keybinding: "C-n", description: "Next resource" },
                ScreenCommandKey { keybinding: "C-p", description: "Prev resource" },
                ScreenCommandKey { keybinding: "↓", description: "Scroll down" },
                ScreenCommandKey { keybinding: "↑", description: "Scroll up" },
                ScreenCommandKey { keybinding: "v", description: "Vote" },
            ],
    {
        let mut keys: Vec<ScreenCommandKey> = Vec::new();
        keys.push(ScreenCommandKey::new("q", "Back"));
        keys.push(ScreenCommandKey::new("C-n", "Next resource"));
        keys.push(ScreenCommandKey::new("C-p", "Prev resource"));
        keys.push(ScreenCommandKey::new("↓", "Scroll down"));
        keys.push(ScreenCommandKey::new("↑", "Scroll up"));
        keys.push(ScreenCommandKey::new("v", "Vote"));
        assert(keys@ =~= seq![
            ScreenCommandKey { keybinding: "q", description: "Back" },
            ScreenCommandKey { keybinding: "C-n", description: "Next resource" },
            ScreenCommandKey { keybinding: "C-p", description: "Prev resource" },
            ScreenCommandKey { keybinding: "↓", description: "Scroll down" },
            ScreenCommandKey { keybinding: "↑", description: "Scroll up" },
            ScreenCommandKey { keybinding: "v", description: "Vote" },
        ]);
        keys
    }

    /// The keys that switch something on this screen: none.
    pub fn toggle_keys(&self) -> (keys: Vec<ScreenToggleKey>)
        ensures
            keys@.len() == 0,
    {
        Vec::new()
    }

    fn vote_query(&self) -> (task: Task)
        requires
            self@.can_vote(),
        ensures
            self@.asks_contenders(task),
    {
        let selected_index = selected_index(&self.resource_select);
        let mut index_values: Vec<ResourceValue> = Vec::new();
        match &self.current_batch.0[selected_index] {
            ContestedResource::Value(value) => {
                index_values.push(value.duplicate());
            },
        }
        assert(value_views(index_values@) =~= seq![self@.batch[self@.selected as int]]);
        let index_name = match &self.document_type.contested_index {
            Some(name) => name.clone(),
            None => String::new(),
        };
        Task::Document(
            DocumentTask::QueryVoteContenders(
                index_name,
                index_values,
                self.document_type.name.clone(),
                self.data_contract.id,
            ),
        )
    }

    /// Takes an event. The vote key wants something to vote on.
    pub fn on_event(&mut self, event: &Event) -> (feedback: ScreenFeedback)
        requires
            old(self).wf(),
            *event == Event::Key(KeyEvent::plain('v')) ==> old(self)@.can_vote(),
        ensures
            final(self).wf(),
            final(self)@ == old(self)@.after(*event),
            old(self)@.answers(*event, feedback),
    {
        match event {
            Event::Key(key) => {
                if key.is_plain('q') {
                    ScreenFeedback::PreviousScreen
                } else if key.is_plain('v') {
                    ScreenFeedback::Task { task: self.vote_query(), block: true }
                } else if key.is_bare(Key::Down) || key.is_bare(Key::Up) {
                    self.resource_view.on_event(key);
                    ScreenFeedback::Redraw
                } else if key.is_ctrl('n') {
                    move_down(&mut self.resource_select);
                    self.update_resource_view();
                    ScreenFeedback::Redraw
                } else if key.is_ctrl('p') {
                    move_up(&mut self.resource_select);
                    self.update_resource_view();
                    ScreenFeedback::Redraw
                } else {
                    ScreenFeedback::Nothing
                }
            },
            Event::Backend(
                BackendEvent::TaskCompleted {
                    task: Task::Document(DocumentTask::QueryVoteContenders(_, _, _, _)),
                    execution_result: Ok(
                        CompletedTaskPayload::ContestedResourceContenders(vote_poll, contenders),
                    ),
                },
            ) => ScreenFeedback::Form(
                ContestedResourceVoteFormController::new(vote_poll.duplicate(), contenders.duplicate()),
            ),
            _ => ScreenFeedback::Nothing,
        }
    }
}

} // verus!
