//! The session: which identity is selected, whether its vault is locked or
//! open, and what every intent of the user and every completion of
//! background work does to it.
//!
//! The session never waits. [`App::update`] takes one message, changes the
//! state and hands back what is to be done outside: reading and writing the
//! stores, turning entries into bytes and back, showing windows. The
//! results come back as further messages.

use vstd::prelude::*;
use vstd::string::*;
use crate::{AppConfig, Backend};
use crate::clock::{distinct_steps, schedule, spec_schedule, Firing, Schedule};
use crate::entry::{
    Entry, EntryMessage, EntryR, EntryRuntime, EntryTask, EntryView, RuntimeView,
};
use crate::envelope::{decrypt, random_bytes, seal_with, SealError, HEADER_LEN, SALT_LEN};
use crate::errors::{ErrorMsg, ErrorView, VaultError, FIRST_ERROR_ID};
use crate::secrets::{entries_view, has_distinct_ids, ids_of, least_free_id, Locked, LockedView, State, StateView};
use crate::session::{
    actions_view, animated_runtime, dismissed, entry_view, errors_view, fresh_runtime, lemma_step_keeps_wf,
    next_ticket, runtime_view, stepped_runtime, task_actions, ActionView, AppView, DELETE_QUESTION,
    DUPLICATE_IDS,
};
use crate::views::{bytes_view, clone_bytes, clone_text, text_view};

verus! {

/// What the list of entries is being edited for.
#[derive(Clone, Copy, Debug, PartialEq, Eq)]
pub struct Editing {
    /// Position of the entry whose settings are shown; none while the
    /// whole list is shown for reordering.
    pub entry: Option<usize>,
}

/// How a load or a parse ended.
#[derive(Debug, Clone, PartialEq, Eq)]
pub enum LoadResult {
    /// The entries that the bytes of a vault hold.
    Found(Vec<Entry>),
    /// Nothing is stored for the identity.
    NotFound,
    /// Bytes are stored for the identity, as they are.
    Stored(Vec<u8>),
    /// Encrypted bytes are stored for the identity.
    Sealed(Vec<u8>),
    /// The load failed.
    Failed(VaultError),
}

/// An intent of the user, or the completion of work done outside.
#[derive(Debug, PartialEq, Eq)]
pub enum Message {
    TogglePopup,
    /// The answer to the load or to the parse of this ticket.
    RetrievedKey { ticket: u64, result: LoadResult },
    UsernameInput(String),
    UsernameSubmit(String),
    PassphraseInput(String),
    PassphraseSubmit(String),
    Logout,
    Save,
    /// The entries handed out for serialization under this ticket came
    /// back as bytes.
    Serialized { ticket: u64, result: Result<Vec<u8>, String> },
    SetKey(Result<(), VaultError>),
    NewEntry,
    Entry(EntryR, EntryMessage),
    EntryClearError,
    NewEntryCancel,
    NewEntryAccept,
    EditEntries,
    MoveEntry { entry: usize, up: bool },
    EditEntry(usize),
    FinishEdit { only_current: bool },
    DeleteEntry(usize),
    ClearPendingDelete,
    AcceptPendingDelete,
    StartMigration,
    DismissError(u32),
    /// The timer of one step length fired.
    Stepped(Firing),
    /// A frame is about to be drawn, at this monotonic instant.
    Animate(u64),
}

impl Clone for Message {
    fn clone(&self) -> Self {
        match self {
            Message::TogglePopup => Message::TogglePopup,
            Message::RetrievedKey { ticket, result } => Message::RetrievedKey {
                ticket: *ticket,
                result: result.clone(),
            },
            Message::UsernameInput(name) => Message::UsernameInput(name.clone()),
            Message::UsernameSubmit(name) => Message::UsernameSubmit(name.clone()),
            Message::PassphraseInput(text) => Message::PassphraseInput(text.clone()),
            Message::PassphraseSubmit(text) => Message::PassphraseSubmit(text.clone()),
            Message::Logout => Message::Logout,
            Message::Save => Message::Save,
            Message::Serialized { ticket, result } => Message::Serialized {
                ticket: *ticket,
                result: match result {
                    Ok(bytes) => Ok(bytes.clone()),
                    Err(detail) => Err(detail.clone()),
                },
            },
            Message::SetKey(result) => Message::SetKey(
                match result {
                    Ok(()) => Ok(()),
                    Err(e) => Err(e.clone()),
                },
            ),
            Message::NewEntry => Message::NewEntry,
            Message::Entry(target, message) => Message::Entry(*target, message.clone()),
            Message::EntryClearError => Message::EntryClearError,
            Message::NewEntryCancel => Message::NewEntryCancel,
            Message::NewEntryAccept => Message::NewEntryAccept,
            Message::EditEntries => Message::EditEntries,
            Message::MoveEntry { entry, up } => Message::MoveEntry { entry: *entry, up: *up },
            Message::EditEntry(entry) => Message::EditEntry(*entry),
            Message::FinishEdit { only_current } => Message::FinishEdit { only_current: *only_current },
            Message::DeleteEntry(entry) => Message::DeleteEntry(*entry),
            Message::ClearPendingDelete => Message::ClearPendingDelete,
            Message::AcceptPendingDelete => Message::AcceptPendingDelete,
            Message::StartMigration => Message::StartMigration,
            Message::DismissError(id) => Message::DismissError(*id),
            Message::Stepped(firing) => Message::Stepped(*firing),
            Message::Animate(instant) => Message::Animate(*instant),
        }
    }
}

/// Work that the session asks of the outside.
#[derive(Debug, Clone, PartialEq, Eq)]
pub enum Action {
    OpenPopup,
    ClosePopup,
    /// Write the identity used last to the configuration.
    StoreLastUser(Option<String>),
    /// Read what is stored for the identity; answer with `RetrievedKey`
    /// under the same ticket.
    Load { user: String, ticket: u64 },
    /// Serialize the entries and write them to the credential store; answer
    /// with `SetKey`.
    Save { user: String, entries: Vec<Entry> },
    /// Serialize the entries; answer with `Serialized` under the same
    /// ticket.
    Serialize { entries: Vec<Entry>, ticket: u64 },
    /// Write the encrypted bytes to the configuration; answer with `SetKey`.
    StoreBlob { blob: Vec<u8> },
    /// Parse the bytes of a vault; answer with `RetrievedKey` under the same
    /// ticket.
    Parse { plaintext: Vec<u8>, ticket: u64 },
    /// Ask the user for an image file; answer with `SetIconFile` or
    /// `CancelledIconFile` for the same entry.
    PickIconFile(EntryR),
    CopyToClipboard(String),
}

/// Which of its screens the window shows.
#[derive(Clone, Copy, Debug, PartialEq, Eq)]
pub enum Screen {
    /// The prompt for the identity.
    Login,
    /// The prompt for the passphrase.
    Passphrase,
    /// The settings of the entry in the making.
    NewEntry,
    /// The settings of the entry at this position.
    EditEntry(usize),
    /// The list of entries, to be reordered and edited.
    EditList,
    /// The list of entries with their codes.
    Main,
}

impl View for Action {
    type V = ActionView;

    open spec fn view(&self) -> ActionView {
        match self {
            Action::OpenPopup => ActionView::OpenPopup,
            Action::ClosePopup => ActionView::ClosePopup,
            Action::StoreLastUser(user) => ActionView::StoreLastUser(text_view(*user)),
            Action::Load { user, ticket } => ActionView::Load { user: user@, ticket: *ticket },
            Action::Save { user, entries } => ActionView::Save { user: user@, entries: entries_view(entries@) },
            Action::Serialize { entries, ticket } => ActionView::Serialize {
                entries: entries_view(entries@),
                ticket: *ticket,
            },
            Action::StoreBlob { blob } => ActionView::StoreBlob { blob: blob@ },
            Action::Parse { plaintext, ticket } => ActionView::Parse { plaintext: plaintext@, ticket: *ticket },
            Action::PickIconFile(target) => ActionView::PickIconFile(*target),
            Action::CopyToClipboard(text) => ActionView::CopyToClipboard(text@),
        }
    }
}

/// The session.
#[derive(Debug)]
pub struct App {
    pub backend: Backend,
    /// Whether the window is shown.
    pub popup: bool,
    pub secret: State,
    /// The caches of the entries of the open vault, in the vault's order.
    pub runtime: Vec<EntryRuntime>,
    /// The entry that is being created.
    pub new_entry: Option<Entry>,
    /// The cache of the entry that is being created.
    pub new_runtime: EntryRuntime,
    /// The error of the latest edit.
    pub entry_error: Option<String>,
    pub editing_entry: Option<Editing>,
    /// Position of the entry whose deletion waits for confirmation.
    pub pending_delete: Option<usize>,
    /// The identity, as typed or as selected.
    pub user: Option<String>,
    /// The passphrase, as typed or as submitted.
    pub passphrase: Option<String>,
    pub migrating: bool,
    /// The notices on screen, oldest first.
    pub errors: Vec<ErrorMsg>,
    /// The identifier of the next notice.
    pub error_ids: u32,
    /// The ticket of the requests of the current selection of the
    /// identity. Answers under another ticket are dropped.
    pub epoch: u64,
}

impl View for App {
    type V = AppView;

    open spec fn view(&self) -> AppView {
        AppView {
            backend: self.backend,
            popup: self.popup,
            secret: self.secret@,
            runtime: runtime_view(self.runtime@),
            new_entry: entry_view(self.new_entry),
            new_runtime: self.new_runtime@,
            entry_error: text_view(self.entry_error),
            editing_entry: self.editing_entry,
            pending_delete: self.pending_delete,
            user: text_view(self.user),
            passphrase: text_view(self.passphrase),
            migrating: self.migrating,
            errors: errors_view(self.errors@),
            error_ids: self.error_ids,
            epoch: self.epoch,
        }
    }
}

fn no_actions() -> (actions: Vec<Action>)
    ensures
        actions_view(actions@) == Seq::<ActionView>::empty(),
{
    let actions: Vec<Action> = Vec::new();
    assert(actions_view(actions@) =~= Seq::<ActionView>::empty());
    actions
}

fn one_action(action: Action) -> (actions: Vec<Action>)
    ensures
        actions_view(actions@) == seq![action@],
{
    let mut actions: Vec<Action> = Vec::new();
    actions.push(action);
    assert(actions_view(actions@) =~= seq![action@]);
    actions
}

fn join(first: Vec<Action>, second: Vec<Action>) -> (actions: Vec<Action>)
    ensures
        actions_view(actions@) == actions_view(first@) + actions_view(second@),
{
    let mut actions = first;
    let mut rest = second;
    actions.append(&mut rest);
    assert(actions_view(actions@) =~= actions_view(first@) + actions_view(second@));
    actions
}

fn clone_entries(items: &[Entry]) -> (copy: Vec<Entry>)
    ensures
        entries_view(copy@) == entries_view(items@),
{
    let mut copy: Vec<Entry> = Vec::new();
    let mut i: usize = 0;
    while i < items.len()
        invariant
            i <= items.len(),
            entries_view(copy@) =~= entries_view(items@).take(i as int),
        decreases items.len() - i,
    {
        let ghost before = entries_view(copy@);
        copy.push(items[i].clone());
        proof {
            let all = entries_view(items@);
            assert(entries_view(copy@) =~= before.push(all[i as int]));
            assert(all.take(i + 1) =~= all.take(i as int).push(all[i as int]));
        }
        i = i + 1;
    }
    assert(entries_view(copy@) =~= entries_view(items@));
    copy
}

fn caches_for(items: &Vec<Entry>) -> (caches: Vec<EntryRuntime>)
    ensures
        runtime_view(caches@) == fresh_runtime(entries_view(items@)),
{
    let mut caches: Vec<EntryRuntime> = Vec::new();
    let mut i: usize = 0;
    while i < items.len()
        invariant
            i <= items.len(),
            runtime_view(caches@) =~= fresh_runtime(entries_view(items@)).take(i as int),
        decreases items.len() - i,
    {
        let ghost before = runtime_view(caches@);
        caches.push(EntryRuntime::new(items[i].id));
        proof {
            let all = fresh_runtime(entries_view(items@));
            assert(runtime_view(caches@) =~= before.push(all[i as int]));
            assert(all.take(i + 1) =~= all.take(i as int).push(all[i as int]));
        }
        i = i + 1;
    }
    assert(runtime_view(caches@) =~= fresh_runtime(entries_view(items@)));
    caches
}

fn task_to_actions(target: EntryR, task: EntryTask) -> (actions: Vec<Action>)
    ensures
        actions_view(actions@) == task_actions(target, task@),
{
    match task {
        EntryTask::Nothing => no_actions(),
        EntryTask::PickIconFile => one_action(Action::PickIconFile(target)),
        EntryTask::CopyToClipboard(text) => one_action(Action::CopyToClipboard(text)),
    }
}

fn fan_out(items: &Vec<Entry>, caches: &mut Vec<EntryRuntime>, firing: Firing)
    ensures
        runtime_view(final(caches)@) == stepped_runtime(entries_view(items@), runtime_view(old(caches)@), firing),
{
    let ghost before = runtime_view(caches@);
    let ghost target = stepped_runtime(entries_view(items@), before, firing);
    let mut i: usize = 0;
    while i < caches.len()
        invariant
            i <= caches.len(),
            caches.len() == before.len(),
            target == stepped_runtime(entries_view(items@), before, firing),
            forall|k: int| 0 <= k < i ==> runtime_view(caches@)[k] == target[k],
            forall|k: int| i <= k < before.len() ==> runtime_view(caches@)[k] == before[k],
        decreases caches.len() - i,
    {
        if i < items.len() && items[i].step == firing.step {
            let code = items[i].code(firing.time);
            let cache = &mut caches[i];
            cache.output = code;
            cache.last_output = firing.instant;
            cache.current_output = firing.instant;
        }
        i = i + 1;
    }
    assert(runtime_view(caches@) =~= target);
}

impl Clone for ErrorMsg {
    fn clone(&self) -> (copy: Self)
        ensures
            copy@ == self@,
    {
        ErrorMsg { id: self.id, msg: self.msg.clone() }
    }
}

impl App {
    /// A session that has not selected an identity yet. `last_user` is
    /// the identity used last, where the configuration holds one.
    pub fn new(flags: AppConfig, last_user: Option<String>) -> (app: App)
        ensures
            app@ == App::spec_new(flags, text_view(last_user)),
            app@.wf(),
    {
        let app = App {
            backend: flags.backend,
            popup: false,
            secret: State::PendingUser,
            runtime: Vec::new(),
            new_entry: None,
            new_runtime: EntryRuntime::new(0),
            entry_error: None,
            editing_entry: None,
            pending_delete: None,
            user: last_user,
            passphrase: None,
            migrating: false,
            errors: Vec::new(),
            error_ids: FIRST_ERROR_ID,
            epoch: 0,
        };
        assert(app@.runtime =~= Seq::<RuntimeView>::empty());
        assert(app@.errors =~= Seq::<ErrorView>::empty());
        assert(ids_of(app@.secret.entries()) =~= Seq::<u64>::empty());
        app
    }

    pub open spec fn spec_new(flags: AppConfig, last_user: Option<Seq<char>>) -> AppView {
        AppView {
            backend: flags.backend,
            popup: false,
            secret: StateView::PendingUser,
            runtime: Seq::empty(),
            new_entry: None,
            new_runtime: EntryRuntime::spec_new(0),
            entry_error: None,
            editing_entry: None,
            pending_delete: None,
            user: last_user,
            passphrase: None,
            migrating: false,
            errors: Seq::empty(),
            error_ids: FIRST_ERROR_ID,
            epoch: 0,
        }
    }

    /// Puts a notice on screen.
    pub fn eat_err(&mut self, e: String)
        ensures
            final(self)@ == old(self)@.surfaced(e@),
    {
        let notice = ErrorMsg::new(&mut self.error_ids, e);
        self.errors.push(notice);
        assert(errors_view(self.errors@) =~= errors_view(old(self).errors@).push(notice@));
    }

    /// The request to load the vault of the identity, where there is one.
    pub fn get_secret_key(&self) -> (actions: Vec<Action>)
        ensures
            actions_view(actions@) == self@.load_actions(),
    {
        match &self.user {
            Some(user) => one_action(Action::Load { user: user.clone(), ticket: self.epoch }),
            None => no_actions(),
        }
    }

    /// The request to store the open vault of the identity, where there is
    /// an identity and the vault is open.
    pub fn set_secret_key(&self) -> (actions: Vec<Action>)
        ensures
            actions_view(actions@) == self@.save_actions(),
    {
        match (&self.user, &self.secret) {
            (Some(user), State::Secrets(items)) => {
                let entries = clone_entries(items.as_slice());
                match self.backend {
                    Backend::Keyring => one_action(Action::Save { user: user.clone(), entries }),
                    Backend::Passphrase => one_action(Action::Serialize { entries, ticket: self.epoch }),
                }
            },
            _ => no_actions(),
        }
    }

    fn selects_identity(&self) -> (b: bool)
        ensures
            b == self@.can_select_identity(),
    {
        match &self.secret {
            State::PendingUser => true,
            State::AwaitingUnlock(Locked::Failed) => true,
            _ => false,
        }
    }

    /// Shows or hides the window. Showing it starts the load of the
    /// identity's vault where none is under way.
    pub fn toggle_popup(&mut self) -> (actions: Vec<Action>)
        ensures
            (final(self)@, actions_view(actions@)) == old(self)@.on_toggle_popup(),
    {
        if self.popup {
            self.popup = false;
            return one_action(Action::ClosePopup);
        }
        self.popup = true;
        if self.selects_identity() && self.user.is_some() {
            self.secret = State::AwaitingUnlock(Locked::Loading);
            self.turn_epoch();
            join(one_action(Action::OpenPopup), self.get_secret_key())
        } else {
            one_action(Action::OpenPopup)
        }
    }

    fn turn_epoch(&mut self)
        ensures
            final(self)@ == (AppView { epoch: next_ticket(old(self)@.epoch), ..old(self)@ }),
    {
        self.epoch = if self.epoch == u64::MAX {
            0
        } else {
            self.epoch + 1
        };
    }

    fn open_vault(&mut self, entries: Vec<Entry>)
        ensures
            final(self)@ == old(self)@.opened(entries_view(entries@)),
    {
        self.runtime = caches_for(&entries);
        self.secret = State::Secrets(entries);
    }

    fn open_empty_vault(&mut self)
        ensures
            final(self)@ == old(self)@.opened(Seq::empty()),
    {
        let none: Vec<Entry> = Vec::new();
        assert(entries_view(none@) =~= Seq::<EntryView>::empty());
        self.open_vault(none);
    }

    fn fail_load(&mut self, kept: Option<Vec<u8>>, text: String)
        ensures
            final(self)@ == old(self)@.load_failed(bytes_view(kept), text@),
    {
        self.secret = match kept {
            Some(blob) => State::AwaitingUnlock(Locked::Sealed(blob)),
            None => State::AwaitingUnlock(Locked::Failed),
        };
        self.eat_err(text);
    }

    fn retrieved(&mut self, ticket: u64, result: LoadResult) -> (actions: Vec<Action>)
        ensures
            (final(self)@, actions_view(actions@)) == old(self)@.on_retrieved(ticket, result),
    {
        if ticket != self.epoch {
            return no_actions();
        }
        let (loading, kept) = match &self.secret {
            State::AwaitingUnlock(Locked::Loading) => (true, None),
            State::AwaitingUnlock(Locked::Parsing(kept)) => (
                false,
                match kept {
                    Some(blob) => Some(clone_bytes(blob)),
                    None => None,
                },
            ),
            _ => {
                return no_actions();
            },
        };
        match result {
            LoadResult::NotFound => {
                if loading {
                    self.open_empty_vault();
                }
            },
            LoadResult::Stored(bytes) => {
                if loading {
                    if bytes.len() == 0 {
                        self.open_empty_vault();
                    } else {
                        self.secret = State::AwaitingUnlock(Locked::Parsing(None));
                        return one_action(Action::Parse { plaintext: bytes, ticket: self.epoch });
                    }
                }
            },
            LoadResult::Sealed(blob) => {
                if loading {
                    if blob.len() == 0 {
                        self.open_empty_vault();
                    } else {
                        self.secret = State::AwaitingUnlock(Locked::Sealed(blob));
                    }
                }
            },
            LoadResult::Found(entries) => {
                if has_distinct_ids(&entries) {
                    self.open_vault(entries);
                } else {
                    self.fail_load(kept, String::from_str(DUPLICATE_IDS));
                }
            },
            LoadResult::Failed(e) => {
                self.fail_load(kept, e.message());
            },
        }
        no_actions()
    }

    fn username_input(&mut self, name: String) -> (actions: Vec<Action>)
        ensures
            (final(self)@, actions_view(actions@)) == old(self)@.on_username_input(name@),
    {
        if self.selects_identity() {
            self.user = Some(name);
        }
        no_actions()
    }

    fn username_submit(&mut self, name: String) -> (actions: Vec<Action>)
        ensures
            (final(self)@, actions_view(actions@)) == old(self)@.on_username_submit(name@),
    {
        if self.selects_identity() {
            let store = one_action(Action::StoreLastUser(Some(name.clone())));
            self.user = Some(name);
            self.secret = State::AwaitingUnlock(Locked::Loading);
            self.turn_epoch();
            join(store, self.get_secret_key())
        } else {
            no_actions()
        }
    }

    fn passphrase_input(&mut self, text: String) -> (actions: Vec<Action>)
        ensures
            (final(self)@, actions_view(actions@)) == old(self)@.on_passphrase_input(text@),
    {
        let accepted = match &self.secret {
            State::Secrets(_) => true,
            State::AwaitingUnlock(Locked::Sealed(_)) => true,
            _ => false,
        };
        if accepted {
            self.passphrase = Some(text);
        }
        no_actions()
    }

    fn passphrase_submit(&mut self, text: String) -> (actions: Vec<Action>)
        ensures
            (final(self)@, actions_view(actions@)) == old(self)@.on_passphrase_submit(text@),
    {
        let sealed = match &self.secret {
            State::AwaitingUnlock(Locked::Sealed(blob)) => Some(clone_bytes(blob)),
            State::Secrets(_) => {
                self.passphrase = Some(text);
                return self.set_secret_key();
            },
            _ => {
                return no_actions();
            },
        };
        match sealed {
            Some(blob) => {
                match decrypt(text.as_str(), blob.as_slice()) {
                    Ok(plaintext) => {
                        self.passphrase = Some(text);
                        if plaintext.len() == 0 {
                            self.open_empty_vault();
                            no_actions()
                        } else {
                            self.secret = State::AwaitingUnlock(Locked::Parsing(Some(blob)));
                            one_action(Action::Parse { plaintext, ticket: self.epoch })
                        }
                    },
                    Err(_) => {
                        self.passphrase = Some(text);
                        self.eat_err(VaultError::DecryptAuth.message());
                        no_actions()
                    },
                }
            },
            None => no_actions(),
        }
    }

    fn logout(&mut self) -> (actions: Vec<Action>)
        ensures
            (final(self)@, actions_view(actions@)) == old(self)@.on_logout(),
    {
        self.secret = State::PendingUser;
        self.runtime = Vec::new();
        self.new_entry = None;
        self.new_runtime = EntryRuntime::new(0);
        self.entry_error = None;
        self.editing_entry = None;
        self.pending_delete = None;
        self.user = None;
        self.passphrase = None;
        self.turn_epoch();
        assert(runtime_view(self.runtime@) =~= Seq::<RuntimeView>::empty());
        one_action(Action::StoreLastUser(None))
    }

    fn save(&mut self) -> (actions: Vec<Action>)
        ensures
            (final(self)@, actions_view(actions@)) == old(self)@.on_save(),
    {
        let store = one_action(Action::StoreLastUser(clone_text(&self.user)));
        join(store, self.set_secret_key())
    }

    fn serialized(&mut self, ticket: u64, result: Result<Vec<u8>, String>, entropy: Option<Vec<u8>>) -> (actions: Vec<
        Action,
    >)
        ensures
            (final(self)@, actions_view(actions@)) == old(self)@.on_serialized(
                ticket,
                result,
                bytes_view(entropy),
            ),
    {
        if ticket != self.epoch {
            return no_actions();
        }
        let bytes = match result {
            Ok(bytes) => bytes,
            Err(detail) => {
                self.eat_err(VaultError::Serialize(detail).message());
                return no_actions();
            },
        };
        let passphrase_backend = match self.backend {
            Backend::Passphrase => true,
            Backend::Keyring => false,
        };
        if !(self.secret.is_unlocked() && passphrase_backend) {
            return no_actions();
        }
        let sealed = match &self.passphrase {
            None => Err(VaultError::PassphraseMissing),
            Some(passphrase) => match &entropy {
                Some(e) => if e.len() == HEADER_LEN {
                    let salt = vstd::slice::slice_subrange(e.as_slice(), 0, SALT_LEN);
                    let nonce = vstd::slice::slice_subrange(e.as_slice(), SALT_LEN, HEADER_LEN);
                    match seal_with(passphrase.as_str(), salt, nonce, bytes.as_slice()) {
                        Ok(blob) => Ok(blob),
                        Err(err) => Err(VaultError::Seal(err)),
                    }
                } else {
                    Err(VaultError::Seal(SealError::NoRandomness))
                },
                None => Err(VaultError::Seal(SealError::NoRandomness)),
            },
        };
        match sealed {
            Ok(blob) => one_action(Action::StoreBlob { blob }),
            Err(e) => {
                self.eat_err(e.message());
                no_actions()
            },
        }
    }

    fn set_key(&mut self, result: Result<(), VaultError>) -> (actions: Vec<Action>)
        ensures
            (final(self)@, actions_view(actions@)) == old(self)@.on_set_key(result),
    {
        match result {
            Ok(()) => {},
            Err(e) => {
                self.eat_err(e.message());
            },
        }
        no_actions()
    }

    fn start_entry(&mut self) -> (actions: Vec<Action>)
        ensures
            (final(self)@, actions_view(actions@)) == old(self)@.on_new_entry(),
    {
        if self.secret.is_unlocked() && self.new_entry.is_none() {
            self.new_entry = Some(Entry::new());
            self.new_runtime = EntryRuntime::new(0);
        }
        no_actions()
    }

    fn entry_message(&mut self, target: EntryR, message: EntryMessage) -> (actions: Vec<Action>)
        ensures
            (final(self)@, actions_view(actions@)) == old(self)@.on_entry(target, message),
    {
        let edit = message.edits();
        match target {
            EntryR::NewEntry => {
                let outcome = match &mut self.new_entry {
                    Some(entry) => entry.update(&mut self.new_runtime, message),
                    None => {
                        return no_actions();
                    },
                };
                match outcome {
                    Ok(task) => {
                        self.entry_error = None;
                        task_to_actions(target, task)
                    },
                    Err(e) => {
                        self.entry_error = Some(e.message());
                        no_actions()
                    },
                }
            },
            EntryR::Index(index) => {
                let index = index as usize;
                let outcome = match &mut self.secret {
                    State::Secrets(items) => {
                        if index < items.len() && index < self.runtime.len() {
                            let ghost before = entries_view(items@);
                            let ghost caches = runtime_view(self.runtime@);
                            let outcome = items[index].update(&mut self.runtime[index], message);
                            proof {
                                assert(entries_view(items@) =~= before.update(
                                    index as int,
                                    before[index as int].after(message),
                                ));
                                assert(runtime_view(self.runtime@) =~= caches.update(
                                    index as int,
                                    caches[index as int].after(before[index as int], message),
                                ));
                            }
                            outcome
                        } else {
                            return no_actions();
                        }
                    },
                    _ => {
                        return no_actions();
                    },
                };
                match outcome {
                    Ok(task) => {
                        self.entry_error = None;
                        let asked = task_to_actions(target, task);
                        if edit {
                            join(asked, self.set_secret_key())
                        } else {
                            let nothing = no_actions();
                            join(asked, nothing)
                        }
                    },
                    Err(e) => {
                        self.entry_error = Some(e.message());
                        no_actions()
                    },
                }
            },
        }
    }

    fn cancel_entry(&mut self) -> (actions: Vec<Action>)
        ensures
            (final(self)@, actions_view(actions@)) == old(self)@.on_new_entry_cancel(),
    {
        self.new_entry = None;
        self.new_runtime = EntryRuntime::new(0);
        no_actions()
    }

    fn accept_entry(&mut self) -> (actions: Vec<Action>)
        ensures
            (final(self)@, actions_view(actions@)) == old(self)@.on_new_entry_accept(),
    {
        if !(self.secret.is_unlocked() && self.new_entry.is_some()) {
            return no_actions();
        }
        let entry = self.new_entry.take().unwrap();
        let ghost given = entry@;
        let ghost entries = self@.secret.entries();
        match self.secret.try_push(entry) {
            Ok(()) => {
                let n = self.secret.len();
                let items = self.secret.as_array();
                let id = items[n - 1].id;
                proof {
                    let after = entries.push(EntryView { id: least_free_id(ids_of(entries)), ..given });
                    assert(entries_view(items@) == after);
                    assert(entries_view(items@)[n - 1] == items@[n - 1]@);
                    assert(id == least_free_id(ids_of(entries)));
                }
                let mut cache = self.new_runtime.clone();
                cache.id = id;
                let ghost caches = runtime_view(self.runtime@);
                let ghost added = cache@;
                self.runtime.push(cache);
                self.new_runtime = EntryRuntime::new(0);
                assert(runtime_view(self.runtime@) =~= caches.push(added));
                self.set_secret_key()
            },
            Err(back) => {
                self.new_entry = Some(back);
                no_actions()
            },
        }
    }

    fn move_entry(&mut self, entry: usize, up: bool) -> (actions: Vec<Action>)
        ensures
            (final(self)@, actions_view(actions@)) == old(self)@.on_move_entry(entry, up),
    {
        if !self.secret.is_unlocked() {
            return no_actions();
        }
        let len = self.secret.len();
        let did_move = self.secret.move_entry(entry, up);
        if did_move {
            let next = if up {
                entry - 1
            } else {
                entry + 1
            };
            if entry < self.runtime.len() && next < self.runtime.len() {
                let ghost caches = runtime_view(self.runtime@);
                self.runtime.swap(entry, next);
                assert(runtime_view(self.runtime@) =~= caches.update(entry as int, caches[next as int]).update(
                    next as int,
                    caches[entry as int],
                ));
            }
            self.set_secret_key()
        } else {
            no_actions()
        }
    }

    fn finish_edit(&mut self, only_current: bool) -> (actions: Vec<Action>)
        ensures
            (final(self)@, actions_view(actions@)) == old(self)@.on_finish_edit(only_current),
    {
        self.editing_entry = if only_current {
            Some(Editing { entry: None })
        } else {
            None
        };
        self.set_secret_key()
    }

    fn accept_delete(&mut self) -> (actions: Vec<Action>)
        ensures
            (final(self)@, actions_view(actions@)) == old(self)@.on_accept_pending_delete(),
    {
        let index = match self.pending_delete {
            Some(index) => index,
            None => {
                return no_actions();
            },
        };
        self.pending_delete = None;
        if self.secret.is_unlocked() && index < self.secret.len() {
            self.secret.delete(index);
            if index < self.runtime.len() {
                let ghost caches = runtime_view(self.runtime@);
                self.runtime.remove(index);
                assert(runtime_view(self.runtime@) =~= caches.remove(index as int));
            }
            self.set_secret_key()
        } else {
            no_actions()
        }
    }

    fn dismiss(&mut self, id: u32) -> (actions: Vec<Action>)
        ensures
            final(self)@ == (AppView { errors: dismissed(old(self)@.errors, id), ..old(self)@ }),
            actions_view(actions@) == Seq::<ActionView>::empty(),
    {
        let mut kept: Vec<ErrorMsg> = Vec::new();
        let mut i: usize = 0;
        let ghost all = errors_view(self.errors@);
        assert(all.take(0) =~= Seq::<ErrorView>::empty());
        while i < self.errors.len()
            invariant
                i <= self.errors.len(),
                all == errors_view(self.errors@),
                errors_view(kept@) =~= dismissed(all.take(i as int), id),
            decreases self.errors.len() - i,
        {
            proof {
                assert(all.take(i + 1).drop_last() =~= all.take(i as int));
                assert(all.take(i + 1).last() == all[i as int]);
            }
            if self.errors[i].id != id {
                kept.push(self.errors[i].clone());
            }
            i = i + 1;
        }
        assert(all.take(i as int) =~= all);
        self.errors = kept;
        no_actions()
    }

    fn stepped(&mut self, firing: Firing) -> (actions: Vec<Action>)
        ensures
            (final(self)@, actions_view(actions@)) == old(self)@.on_stepped(firing),
    {
        match &self.secret {
            State::Secrets(items) => {
                fan_out(items, &mut self.runtime, firing);
            },
            _ => {},
        }
        no_actions()
    }

    fn animate(&mut self, instant: u64) -> (actions: Vec<Action>)
        ensures
            (final(self)@, actions_view(actions@)) == old(self)@.on_animate(instant),
    {
        if self.secret.is_unlocked() {
            let ghost before = runtime_view(self.runtime@);
            let mut i: usize = 0;
            let caches = &mut self.runtime;
            while i < caches.len()
                invariant
                    i <= caches.len(),
                    caches.len() == before.len(),
                    forall|k: int| 0 <= k < i ==> runtime_view(caches@)[k] == animated_runtime(before, instant)[k],
                    forall|k: int| i <= k < before.len() ==> runtime_view(caches@)[k] == before[k],
                decreases caches.len() - i,
            {
                caches[i].current_output = instant;
                i = i + 1;
            }
            assert(runtime_view(caches@) =~= animated_runtime(before, instant));
        }
        no_actions()
    }

    /// Applies one message, with the random bytes drawn for it: the salt
    /// and the nonce under which a serialized vault is sealed.
    pub fn update_with(&mut self, message: Message, entropy: Option<Vec<u8>>) -> (actions: Vec<Action>)
        ensures
            (final(self)@, actions_view(actions@)) == old(self)@.step(message, bytes_view(entropy)),
            old(self)@.wf() ==> final(self)@.wf(),
    {
        let ghost before = self@;
        let bound = self.secret.len();
        proof {
            if before.wf() {
                lemma_step_keeps_wf(before, message, bytes_view(entropy));
            }
        }
        match message {
            Message::TogglePopup => self.toggle_popup(),
            Message::RetrievedKey { ticket, result } => self.retrieved(ticket, result),
            Message::UsernameInput(name) => self.username_input(name),
            Message::UsernameSubmit(name) => self.username_submit(name),
            Message::PassphraseInput(text) => self.passphrase_input(text),
            Message::PassphraseSubmit(text) => self.passphrase_submit(text),
            Message::Logout => self.logout(),
            Message::Save => self.save(),
            Message::Serialized { ticket, result } => self.serialized(ticket, result, entropy),
            Message::SetKey(result) => self.set_key(result),
            Message::NewEntry => self.start_entry(),
            Message::Entry(target, message) => self.entry_message(target, message),
            Message::EntryClearError => {
                self.entry_error = None;
                no_actions()
            },
            Message::NewEntryCancel => self.cancel_entry(),
            Message::NewEntryAccept => self.accept_entry(),
            Message::EditEntries => {
                self.editing_entry = Some(Editing { entry: None });
                no_actions()
            },
            Message::MoveEntry { entry, up } => self.move_entry(entry, up),
            Message::EditEntry(entry) => {
                self.editing_entry = Some(Editing { entry: Some(entry) });
                no_actions()
            },
            Message::FinishEdit { only_current } => self.finish_edit(only_current),
            Message::DeleteEntry(entry) => {
                self.pending_delete = Some(entry);
                no_actions()
            },
            Message::ClearPendingDelete => {
                self.pending_delete = None;
                no_actions()
            },
            Message::AcceptPendingDelete => self.accept_delete(),
            Message::StartMigration => {
                self.migrating = true;
                no_actions()
            },
            Message::DismissError(id) => self.dismiss(id),
            Message::Stepped(firing) => self.stepped(firing),
            Message::Animate(instant) => self.animate(instant),
        }
    }

    /// Applies one message: changes the session and hands back what is to
    /// be done outside. Where the message brings the bytes of a vault to be
    /// sealed, a salt and a nonce are drawn at random first; for every
    /// other message the outcome is fixed by the session and the message.
    pub fn update(&mut self, message: Message) -> (actions: Vec<Action>)
        ensures
            exists|entropy: Option<Seq<u8>>|
                (final(self)@, actions_view(actions@)) == #[trigger] old(self)@.step(message, entropy),
            !AppView::needs_entropy(message) ==> (final(self)@, actions_view(actions@)) == old(self)@.step(
                message,
                None,
            ),
            old(self)@.wf() ==> final(self)@.wf(),
    {
        let entropy = match &message {
            Message::Serialized { result: Ok(_), .. } => random_bytes(HEADER_LEN),
            _ => None,
        };
        self.update_with(message, entropy)
    }

    /// The screen that the window shows.
    pub fn screen(&self) -> (screen: Screen)
        ensures
            screen == self@.screen(),
    {
        match &self.secret {
            State::Secrets(items) => {
                if self.new_entry.is_some() {
                    Screen::NewEntry
                } else {
                    match self.editing_entry {
                        Some(editing) => match editing.entry {
                            Some(index) => if index < items.len() {
                                Screen::EditEntry(index)
                            } else {
                                Screen::EditList
                            },
                            None => Screen::EditList,
                        },
                        None => Screen::Main,
                    }
                }
            },
            State::AwaitingUnlock(Locked::Sealed(_)) => Screen::Passphrase,
            _ => Screen::Login,
        }
    }

    /// The question put to the user before an entry is deleted, where a
    /// deletion waits for an entry that exists.
    pub fn delete_prompt(&self) -> (prompt: Option<String>)
        ensures
            text_view(prompt) == self@.delete_prompt(),
    {
        let index = match self.pending_delete {
            Some(index) => index,
            None => {
                return None;
            },
        };
        let items = self.secret.as_array();
        if index < items.len() {
            let entry = &items[index];
            assert(entries_view(items@)[index as int] == entry@);
            let mut text = String::from_str(DELETE_QUESTION);
            text.append(entry.label.as_str());
            match &entry.issuer {
                Some(issuer) => {
                    text.append(" (");
                    text.append(issuer.as_str());
                    text.append(")");
                    assert(text@ =~= DELETE_QUESTION@ + entry.label@ + (" ("@ + issuer@ + ")"@));
                },
                None => {
                    assert(text@ =~= DELETE_QUESTION@ + entry.label@ + Seq::<char>::empty());
                },
            }
            Some(text)
        } else {
            None
        }
    }

    /// The timers that the session needs at the wall-clock time
    /// `now_millis`, in milliseconds: while the window is shown, one for
    /// each step length that an entry of the open vault uses.
    pub fn subscription(&self, now_millis: u64) -> (timers: Vec<Schedule>)
        ensures
            timers@ == self@.timers(now_millis),
    {
        let mut timers: Vec<Schedule> = Vec::new();
        if !self.popup {
            assert(timers@ =~= self@.timers(now_millis));
            return timers;
        }
        let items = self.secret.as_array();
        let ghost entries = entries_view(items@);
        let ghost plan = |step: u64| spec_schedule(step, now_millis);
        let mut i: usize = 0;
        assert(entries.take(0) =~= Seq::<EntryView>::empty());
        while i < items.len()
            invariant
                i <= items.len(),
                entries == entries_view(items@),
                plan == |step: u64| spec_schedule(step, now_millis),
                timers@ =~= distinct_steps(entries.take(i as int)).map_values(plan),
                forall|k: int| 0 <= k < timers.len() ==> timers[k].step > 0,
            decreases items.len() - i,
        {
            let step = items[i].step;
            let ghost steps = distinct_steps(entries.take(i as int));
            proof {
                assert(entries.take(i + 1).drop_last() =~= entries.take(i as int));
                assert(entries.take(i + 1).last() == entries[i as int]);
                assert(entries[i as int].step == step);
            }
            if step > 0 && !has_timer(&timers, step, Ghost(steps), Ghost(now_millis)) {
                timers.push(schedule(step, now_millis));
                assert(timers@ =~= steps.push(step).map_values(plan));
            }
            i = i + 1;
        }
        assert(entries.take(i as int) =~= entries);
        timers
    }
}

fn has_timer(timers: &Vec<Schedule>, step: u64, Ghost(steps): Ghost<Seq<u64>>, Ghost(now_millis): Ghost<u64>) -> (found: bool)
    requires
        timers@ =~= steps.map_values(|s: u64| spec_schedule(s, now_millis)),
    ensures
        found == steps.contains(step),
{
    let mut k: usize = 0;
    while k < timers.len()
        invariant
            k <= timers.len(),
            timers@ =~= steps.map_values(|s: u64| spec_schedule(s, now_millis)),
            forall|j: int| 0 <= j < k ==> steps[j] != step,
        decreases timers.len() - k,
    {
        assert(timers[k as int] == spec_schedule(steps[k as int], now_millis));
        if timers[k].step == step {
            assert(steps[k as int] == step);
            return true;
        }
        k = k + 1;
    }
    false
}

} // verus!
