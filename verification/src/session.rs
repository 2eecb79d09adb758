//! The session as a mathematical object: its value, what every message
//! makes of it, and what holds of every session that messages can reach.

use vstd::prelude::*;
use crate::app::{Action, Editing, LoadResult, Message, Screen};
use crate::clock::{distinct_steps, spec_schedule, Firing, Schedule};
use crate::entry::{Entry, EntryMessage, EntryR, EntryRuntime, EntryView, RuntimeView, TaskView};
use crate::envelope::{opened_envelope, sealed_envelope, SealError, HEADER_LEN, SALT_LEN};
use crate::errors::{next_error_id, ErrorMsg, ErrorView, VaultError};
use crate::secrets::{
    entries_view, ids_of, least_free_id, lemma_fresh_id_exists, lemma_moved_keeps_ids,
    lemma_without_keeps_distinct, moved, without, LockedView, StateView,
};
use crate::Backend;

verus! {

/// Mathematical value of an [`Action`].
pub enum ActionView {
    OpenPopup,
    ClosePopup,
    StoreLastUser(Option<Seq<char>>),
    Load { user: Seq<char>, ticket: u64 },
    Save { user: Seq<char>, entries: Seq<EntryView> },
    Serialize { entries: Seq<EntryView>, ticket: u64 },
    StoreBlob { blob: Seq<u8> },
    Parse { plaintext: Seq<u8>, ticket: u64 },
    PickIconFile(EntryR),
    CopyToClipboard(Seq<char>),
}

/// Mathematical value of a session.
pub struct AppView {
    pub backend: Backend,
    pub popup: bool,
    pub secret: StateView,
    pub runtime: Seq<RuntimeView>,
    pub new_entry: Option<EntryView>,
    pub new_runtime: RuntimeView,
    pub entry_error: Option<Seq<char>>,
    pub editing_entry: Option<Editing>,
    pub pending_delete: Option<usize>,
    pub user: Option<Seq<char>>,
    pub passphrase: Option<Seq<char>>,
    pub migrating: bool,
    pub errors: Seq<ErrorView>,
    pub error_ids: u32,
    pub epoch: u64,
}

/// The values of a run of caches, in order.
pub open spec fn runtime_view(caches: Seq<EntryRuntime>) -> Seq<RuntimeView> {
    caches.map_values(|r: EntryRuntime| r@)
}

/// The values of a run of notices, in order.
pub open spec fn errors_view(notices: Seq<ErrorMsg>) -> Seq<ErrorView> {
    notices.map_values(|e: ErrorMsg| e@)
}

/// The values of a run of requests, in order.
pub open spec fn actions_view(actions: Seq<Action>) -> Seq<ActionView> {
    actions.map_values(|a: Action| a@)
}

/// Mathematical value of an entry that may be absent.
pub open spec fn entry_view(entry: Option<Entry>) -> Option<EntryView> {
    match entry {
        None => None,
        Some(e) => Some(e@),
    }
}

/// The ticket that follows `ticket`; after the largest comes zero.
pub open spec fn next_ticket(ticket: u64) -> u64 {
    if ticket == u64::MAX {
        0
    } else {
        (ticket + 1) as u64
    }
}

/// The caches of freshly loaded entries: one for each, with nothing in it.
pub open spec fn fresh_runtime(entries: Seq<EntryView>) -> Seq<RuntimeView> {
    Seq::new(entries.len(), |i: int| EntryRuntime::spec_new(entries[i].id))
}

/// The caches after the timer of one step length fired: the entries of that
/// step length get the code of the firing's time, the others stay.
pub open spec fn stepped_runtime(entries: Seq<EntryView>, runtime: Seq<RuntimeView>, firing: Firing) -> Seq<
    RuntimeView,
> {
    Seq::new(
        runtime.len(),
        |i: int|
            if i < entries.len() && entries[i].step == firing.step {
                runtime[i].after(entries[i], EntryMessage::Stepped(firing.instant, firing.time))
            } else {
                runtime[i]
            },
    )
}

/// The caches after a frame: each has the frame's instant as its latest,
/// and the code it had.
pub open spec fn animated_runtime(runtime: Seq<RuntimeView>, instant: u64) -> Seq<RuntimeView> {
    Seq::new(runtime.len(), |i: int| RuntimeView { current_output: instant, ..runtime[i] })
}

/// The caches after the entry at `entry` was asked to move: they move as
/// the entries do.
pub open spec fn moved_runtime(runtime: Seq<RuntimeView>, len: nat, entry: usize, up: bool) -> Seq<RuntimeView> {
    if up {
        if 0 < entry < len && entry < runtime.len() {
            runtime.update(entry as int, runtime[entry - 1]).update(entry - 1, runtime[entry as int])
        } else {
            runtime
        }
    } else {
        if entry + 1 < len && entry + 1 < runtime.len() {
            runtime.update(entry as int, runtime[entry + 1]).update(entry + 1, runtime[entry as int])
        } else {
            runtime
        }
    }
}

/// The notices without those of one identifier.
pub open spec fn dismissed(errors: Seq<ErrorView>, id: u32) -> Seq<ErrorView>
    decreases errors.len(),
{
    if errors.len() == 0 {
        Seq::empty()
    } else {
        let before = dismissed(errors.drop_last(), id);
        if errors.last().id == id {
            before
        } else {
            before.push(errors.last())
        }
    }
}

/// What a task of an entry asks of the outside.
pub open spec fn task_actions(target: EntryR, task: TaskView) -> Seq<ActionView> {
    match task {
        TaskView::Nothing => Seq::empty(),
        TaskView::PickIconFile => seq![ActionView::PickIconFile(target)],
        TaskView::CopyToClipboard(text) => seq![ActionView::CopyToClipboard(text)],
    }
}

/// The entries that an answer brings: those found, unless two of them
/// share an identifier.
pub open spec fn loaded_entries(result: LoadResult) -> Option<Seq<EntryView>> {
    match result {
        LoadResult::Found(entries) => if ids_of(entries_view(entries@)).no_duplicates() {
            Some(entries_view(entries@))
        } else {
            None
        },
        _ => None,
    }
}

/// The notice of a load that did not end in entries.
pub open spec fn load_failure(result: LoadResult) -> Seq<char> {
    match result {
        LoadResult::Failed(e) => e.spec_message(),
        _ => DUPLICATE_IDS@,
    }
}

/// Start of the question put before an entry is deleted.
pub const DELETE_QUESTION: &'static str = "Are you sure you want to delete ";

/// Detail of the failure of a vault in which two entries share an
/// identifier.
pub const DUPLICATE_IDS: &'static str = "Couldn't deserialise secret store: two entries share an identifier";

impl AppView {
    /// The caches belong to the entries, one to one and in order; only an
    /// open vault has an entry in the making; no passphrase is held without
    /// an identity; and no two entries share an identifier.
    pub open spec fn wf(self) -> bool {
        &&& self.secret.wf()
        &&& self.runtime.len() == self.secret.entries().len()
        &&& forall|i: int| 0 <= i < self.runtime.len() ==> self.runtime[i].id == self.secret.entries()[i].id
        &&& !(self.secret is Secrets) ==> self.new_entry is None
        &&& self.new_entry is None ==> self.new_runtime == EntryRuntime::spec_new(0)
        &&& self.secret is PendingUser ==> self.passphrase is None
    }

    /// Whether an identity can be typed and submitted: none is selected,
    /// or the load for the selected one failed.
    pub open spec fn can_select_identity(self) -> bool {
        self.secret is PendingUser || self.secret == StateView::AwaitingUnlock(LockedView::Failed)
    }

    /// The session with one more notice.
    pub open spec fn surfaced(self, text: Seq<char>) -> AppView {
        AppView {
            errors: self.errors.push(ErrorView { id: self.error_ids, msg: text }),
            error_ids: next_error_id(self.error_ids),
            ..self
        }
    }

    /// The request to load the vault of the identity, where there is one.
    pub open spec fn load_actions(self) -> Seq<ActionView> {
        match self.user {
            Some(user) => seq![ActionView::Load { user, ticket: self.epoch }],
            None => Seq::empty(),
        }
    }

    /// The request to store the open vault of the identity. Nothing is
    /// stored without an identity or while the vault is not open.
    pub open spec fn save_actions(self) -> Seq<ActionView> {
        match (self.user, self.secret) {
            (Some(user), StateView::Secrets(entries)) => match self.backend {
                Backend::Keyring => seq![ActionView::Save { user, entries }],
                Backend::Passphrase => seq![ActionView::Serialize { entries, ticket: self.epoch }],
            },
            _ => Seq::empty(),
        }
    }

    /// The session with nothing of an identity left in it.
    pub open spec fn logged_out(self) -> AppView {
        AppView {
            secret: StateView::PendingUser,
            runtime: Seq::empty(),
            new_entry: None,
            new_runtime: EntryRuntime::spec_new(0),
            entry_error: None,
            editing_entry: None,
            pending_delete: None,
            user: None,
            passphrase: None,
            epoch: next_ticket(self.epoch),
            ..self
        }
    }

    /// The window is shown or hidden. Showing it starts the load of the
    /// identity's vault, under a new ticket, where an identity is known and
    /// no load is under way or done.
    pub open spec fn on_toggle_popup(self) -> (AppView, Seq<ActionView>) {
        if self.popup {
            (AppView { popup: false, ..self }, seq![ActionView::ClosePopup])
        } else if self.can_select_identity() && self.user is Some {
            let next = AppView {
                popup: true,
                secret: StateView::AwaitingUnlock(LockedView::Loading),
                epoch: next_ticket(self.epoch),
                ..self
            };
            (next, seq![ActionView::OpenPopup] + next.load_actions())
        } else {
            (AppView { popup: true, ..self }, seq![ActionView::OpenPopup])
        }
    }

    /// The answer to a load or to a parse arrived. One under another ticket
    /// than the current one is dropped.
    pub open spec fn on_retrieved(self, ticket: u64, result: LoadResult) -> (AppView, Seq<ActionView>) {
        if ticket != self.epoch {
            (self, Seq::empty())
        } else {
            self.on_answer(result)
        }
    }

    /// The session with its vault open and nothing cached yet.
    pub open spec fn opened(self, entries: Seq<EntryView>) -> AppView {
        AppView { secret: StateView::Secrets(entries), runtime: fresh_runtime(entries), ..self }
    }

    /// The session after a load or a parse failed: the failure is shown,
    /// and encrypted bytes that were kept wait for the passphrase again.
    pub open spec fn load_failed(self, kept: Option<Seq<u8>>, text: Seq<char>) -> AppView {
        (AppView {
            secret: match kept {
                Some(blob) => StateView::AwaitingUnlock(LockedView::Sealed(blob)),
                None => StateView::AwaitingUnlock(LockedView::Failed),
            },
            ..self
        }).surfaced(text)
    }

    /// The answer that the session waits for. To a load: absence opens an
    /// empty vault, and so do stored bytes of no length; other bytes are
    /// handed out to be parsed, or wait for the passphrase where they are
    /// encrypted; a failure is shown. To a parse: entries open the vault, a
    /// failure is shown. An answer that nothing waits for is dropped.
    pub open spec fn on_answer(self, result: LoadResult) -> (AppView, Seq<ActionView>) {
        match self.secret {
            StateView::AwaitingUnlock(LockedView::Loading) => match result {
                LoadResult::NotFound => (self.opened(Seq::empty()), Seq::empty()),
                LoadResult::Stored(bytes) => if bytes@.len() == 0 {
                    (self.opened(Seq::empty()), Seq::empty())
                } else {
                    (
                        AppView { secret: StateView::AwaitingUnlock(LockedView::Parsing(None)), ..self },
                        seq![ActionView::Parse { plaintext: bytes@, ticket: self.epoch }],
                    )
                },
                LoadResult::Sealed(blob) => if blob@.len() == 0 {
                    (self.opened(Seq::empty()), Seq::empty())
                } else {
                    (AppView { secret: StateView::AwaitingUnlock(LockedView::Sealed(blob@)), ..self }, Seq::empty())
                },
                _ => self.on_parsed(None, result),
            },
            StateView::AwaitingUnlock(LockedView::Parsing(kept)) => match result {
                LoadResult::Found(_) => self.on_parsed(kept, result),
                LoadResult::Failed(_) => self.on_parsed(kept, result),
                _ => (self, Seq::empty()),
            },
            _ => (self, Seq::empty()),
        }
    }

    /// Entries, or the failure to get at them, arrived: entries of which no
    /// two share an identifier open the vault.
    pub open spec fn on_parsed(self, kept: Option<Seq<u8>>, result: LoadResult) -> (AppView, Seq<ActionView>) {
        match loaded_entries(result) {
            Some(entries) => (self.opened(entries), Seq::empty()),
            None => (self.load_failed(kept, load_failure(result)), Seq::empty()),
        }
    }

    /// The identity is being typed.
    pub open spec fn on_username_input(self, name: Seq<char>) -> (AppView, Seq<ActionView>) {
        if self.can_select_identity() {
            (AppView { user: Some(name), ..self }, Seq::empty())
        } else {
            (self, Seq::empty())
        }
    }

    /// The identity was submitted: it is remembered, and its vault is
    /// loaded under a new ticket.
    pub open spec fn on_username_submit(self, name: Seq<char>) -> (AppView, Seq<ActionView>) {
        if self.can_select_identity() {
            let next = AppView {
                user: Some(name),
                secret: StateView::AwaitingUnlock(LockedView::Loading),
                epoch: next_ticket(self.epoch),
                ..self
            };
            (next, seq![ActionView::StoreLastUser(Some(name))] + next.load_actions())
        } else {
            (self, Seq::empty())
        }
    }

    /// The passphrase is being typed.
    pub open spec fn on_passphrase_input(self, text: Seq<char>) -> (AppView, Seq<ActionView>) {
        if self.secret is Secrets || self.secret matches StateView::AwaitingUnlock(LockedView::Sealed(_)) {
            (AppView { passphrase: Some(text), ..self }, Seq::empty())
        } else {
            (self, Seq::empty())
        }
    }

    /// The passphrase was submitted. Where encrypted bytes wait for it, they
    /// are opened: a plaintext of no length opens an empty vault, another
    /// is handed out to be parsed, and a failure is shown while the bytes
    /// keep waiting; the text typed stays in every case. Where the vault is
    /// open, it is saved under the new passphrase.
    pub open spec fn on_passphrase_submit(self, text: Seq<char>) -> (AppView, Seq<ActionView>) {
        match self.secret {
            StateView::AwaitingUnlock(LockedView::Sealed(blob)) => match opened_envelope(text, blob) {
                Ok(plaintext) => if plaintext.len() == 0 {
                    ((AppView { passphrase: Some(text), ..self }).opened(Seq::empty()), Seq::empty())
                } else {
                    (
                        AppView {
                            passphrase: Some(text),
                            secret: StateView::AwaitingUnlock(LockedView::Parsing(Some(blob))),
                            ..self
                        },
                        seq![ActionView::Parse { plaintext, ticket: self.epoch }],
                    )
                },
                Err(_) => (
                    (AppView { passphrase: Some(text), ..self }).surfaced(VaultError::DecryptAuth.spec_message()),
                    Seq::empty(),
                ),
            },
            StateView::Secrets(_) => {
                let next = AppView { passphrase: Some(text), ..self };
                (next, next.save_actions())
            },
            _ => (self, Seq::empty()),
        }
    }

    /// The identity is given up: nothing of it stays, and its absence is
    /// written to the configuration.
    pub open spec fn on_logout(self) -> (AppView, Seq<ActionView>) {
        (self.logged_out(), seq![ActionView::StoreLastUser(None)])
    }

    /// The identity and the open vault are written out.
    pub open spec fn on_save(self) -> (AppView, Seq<ActionView>) {
        (self, seq![ActionView::StoreLastUser(self.user)] + self.save_actions())
    }

    /// The bytes of the vault came back. Those under another ticket than the
    /// current one are dropped.
    pub open spec fn on_serialized(
        self,
        ticket: u64,
        result: Result<Vec<u8>, String>,
        entropy: Option<Seq<u8>>,
    ) -> (AppView, Seq<ActionView>) {
        if ticket != self.epoch {
            (self, Seq::empty())
        } else {
            self.on_bytes(result, entropy)
        }
    }

    /// The bytes of the open vault are sealed under the passphrase, with the
    /// salt and the nonce that `entropy` holds, and handed out to be stored.
    /// Without a passphrase, without random bytes or where sealing fails,
    /// the failure is shown instead.
    pub open spec fn on_bytes(self, result: Result<Vec<u8>, String>, entropy: Option<Seq<u8>>) -> (
        AppView,
        Seq<ActionView>,
    ) {
        match result {
            Err(detail) => (self.surfaced(VaultError::Serialize(detail).spec_message()), Seq::empty()),
            Ok(bytes) => if self.secret is Secrets && self.backend == Backend::Passphrase {
                match self.passphrase {
                    None => (self.surfaced(VaultError::PassphraseMissing.spec_message()), Seq::empty()),
                    Some(passphrase) => match entropy {
                        Some(e) if e.len() == HEADER_LEN => match sealed_envelope(
                            passphrase,
                            e.subrange(0, SALT_LEN as int),
                            e.subrange(SALT_LEN as int, HEADER_LEN as int),
                            bytes@,
                        ) {
                            Ok(blob) => (self, seq![ActionView::StoreBlob { blob }]),
                            Err(err) => (self.surfaced(VaultError::Seal(err).spec_message()), Seq::empty()),
                        },
                        _ => (
                            self.surfaced(VaultError::Seal(SealError::NoRandomness).spec_message()),
                            Seq::empty(),
                        ),
                    },
                }
            } else {
                (self, Seq::empty())
            },
        }
    }

    /// A save ended. A failure is shown; what is in memory stays as it is.
    pub open spec fn on_set_key(self, result: Result<(), VaultError>) -> (AppView, Seq<ActionView>) {
        match result {
            Ok(_) => (self, Seq::empty()),
            Err(e) => (self.surfaced(e.spec_message()), Seq::empty()),
        }
    }

    /// An entry is begun, unless one is in the making or the vault is not
    /// open.
    pub open spec fn on_new_entry(self) -> (AppView, Seq<ActionView>) {
        if self.secret is Secrets && self.new_entry is None {
            (
                AppView { new_entry: Some(Entry::spec_new()), new_runtime: EntryRuntime::spec_new(0), ..self },
                Seq::empty(),
            )
        } else {
            (self, Seq::empty())
        }
    }

    /// A message for one entry: the entry in the making, or one of the open
    /// vault. An accepted edit of a stored entry is followed by a save. An
    /// edit that fails is shown and changes no entry.
    pub open spec fn on_entry(self, target: EntryR, message: EntryMessage) -> (AppView, Seq<ActionView>) {
        match target {
            EntryR::NewEntry => match self.new_entry {
                Some(entry) => {
                    let next = AppView {
                        new_entry: Some(entry.after(message)),
                        new_runtime: self.new_runtime.after(entry, message),
                        ..self
                    };
                    match entry.task(self.new_runtime, message) {
                        Ok(task) => (AppView { entry_error: None, ..next }, task_actions(target, task)),
                        Err(e) => (AppView { entry_error: Some(e.spec_message()), ..next }, Seq::empty()),
                    }
                },
                None => (self, Seq::empty()),
            },
            EntryR::Index(index) => match self.secret {
                StateView::Secrets(entries) => if index < entries.len() && index < self.runtime.len() {
                    let entry = entries[index as int];
                    let next = AppView {
                        secret: StateView::Secrets(entries.update(index as int, entry.after(message))),
                        runtime: self.runtime.update(
                            index as int,
                            self.runtime[index as int].after(entry, message),
                        ),
                        ..self
                    };
                    match entry.task(self.runtime[index as int], message) {
                        Ok(task) => {
                            let done = AppView { entry_error: None, ..next };
                            (
                                done,
                                task_actions(target, task) + if message.is_edit() {
                                    done.save_actions()
                                } else {
                                    Seq::empty()
                                },
                            )
                        },
                        Err(e) => (AppView { entry_error: Some(e.spec_message()), ..next }, Seq::empty()),
                    }
                } else {
                    (self, Seq::empty())
                },
                _ => (self, Seq::empty()),
            },
        }
    }

    /// The entry in the making is given up.
    pub open spec fn on_new_entry_cancel(self) -> (AppView, Seq<ActionView>) {
        (AppView { new_entry: None, new_runtime: EntryRuntime::spec_new(0), ..self }, Seq::empty())
    }

    /// The entry in the making joins the open vault under the least free
    /// identifier, its cache with it, and the vault is saved.
    pub open spec fn on_new_entry_accept(self) -> (AppView, Seq<ActionView>) {
        match (self.new_entry, self.secret) {
            (Some(entry), StateView::Secrets(entries)) => {
                let id = least_free_id(ids_of(entries));
                let next = AppView {
                    secret: StateView::Secrets(entries.push(EntryView { id, ..entry })),
                    runtime: self.runtime.push(RuntimeView { id, ..self.new_runtime }),
                    new_entry: None,
                    new_runtime: EntryRuntime::spec_new(0),
                    ..self
                };
                (next, next.save_actions())
            },
            _ => (self, Seq::empty()),
        }
    }

    /// An entry moves one place; the vault is saved where it did.
    pub open spec fn on_move_entry(self, entry: usize, up: bool) -> (AppView, Seq<ActionView>) {
        match self.secret {
            StateView::Secrets(entries) => {
                let next = AppView {
                    secret: StateView::Secrets(moved(entries, entry, up)),
                    runtime: moved_runtime(self.runtime, entries.len(), entry, up),
                    ..self
                };
                let did_move = if up {
                    0 < entry < entries.len()
                } else {
                    entry + 1 < entries.len()
                };
                (
                    next,
                    if did_move {
                        next.save_actions()
                    } else {
                        Seq::empty()
                    },
                )
            },
            _ => (self, Seq::empty()),
        }
    }

    /// Editing ends, of one entry or of the list, and the vault is saved.
    pub open spec fn on_finish_edit(self, only_current: bool) -> (AppView, Seq<ActionView>) {
        let next = AppView {
            editing_entry: if only_current {
                Some(Editing { entry: None })
            } else {
                None
            },
            ..self
        };
        (next, next.save_actions())
    }

    /// The deletion that waited is carried out, and the vault is saved.
    pub open spec fn on_accept_pending_delete(self) -> (AppView, Seq<ActionView>) {
        match self.pending_delete {
            Some(index) => match self.secret {
                StateView::Secrets(entries) => if index < entries.len() {
                    let next = AppView {
                        secret: StateView::Secrets(without(entries, index)),
                        runtime: if index < self.runtime.len() {
                            self.runtime.remove(index as int)
                        } else {
                            self.runtime
                        },
                        pending_delete: None,
                        ..self
                    };
                    (next, next.save_actions())
                } else {
                    (AppView { pending_delete: None, ..self }, Seq::empty())
                },
                _ => (AppView { pending_delete: None, ..self }, Seq::empty()),
            },
            None => (self, Seq::empty()),
        }
    }

    /// The timer of one step length fired.
    pub open spec fn on_stepped(self, firing: Firing) -> (AppView, Seq<ActionView>) {
        match self.secret {
            StateView::Secrets(entries) => (
                AppView { runtime: stepped_runtime(entries, self.runtime, firing), ..self },
                Seq::empty(),
            ),
            _ => (self, Seq::empty()),
        }
    }

    /// A frame is about to be drawn.
    pub open spec fn on_animate(self, instant: u64) -> (AppView, Seq<ActionView>) {
        if self.secret is Secrets {
            (AppView { runtime: animated_runtime(self.runtime, instant), ..self }, Seq::empty())
        } else {
            (self, Seq::empty())
        }
    }

    /// Whether a message draws on random bytes.
    pub open spec fn needs_entropy(message: Message) -> bool {
        message matches Message::Serialized { result: Ok(_), .. }
    }

    /// The session after a message, and what it asks of the outside.
    /// `entropy` holds the random bytes drawn for the message, where it
    /// needs any and the system gave them.
    pub open spec fn step(self, message: Message, entropy: Option<Seq<u8>>) -> (AppView, Seq<ActionView>) {
        match message {
            Message::TogglePopup => self.on_toggle_popup(),
            Message::RetrievedKey { ticket, result } => self.on_retrieved(ticket, result),
            Message::UsernameInput(name) => self.on_username_input(name@),
            Message::UsernameSubmit(name) => self.on_username_submit(name@),
            Message::PassphraseInput(text) => self.on_passphrase_input(text@),
            Message::PassphraseSubmit(text) => self.on_passphrase_submit(text@),
            Message::Logout => self.on_logout(),
            Message::Save => self.on_save(),
            Message::Serialized { ticket, result } => self.on_serialized(ticket, result, entropy),
            Message::SetKey(result) => self.on_set_key(result),
            Message::NewEntry => self.on_new_entry(),
            Message::Entry(target, message) => self.on_entry(target, message),
            Message::EntryClearError => (AppView { entry_error: None, ..self }, Seq::empty()),
            Message::NewEntryCancel => self.on_new_entry_cancel(),
            Message::NewEntryAccept => self.on_new_entry_accept(),
            Message::EditEntries => (
                AppView { editing_entry: Some(Editing { entry: None }), ..self },
                Seq::empty(),
            ),
            Message::MoveEntry { entry, up } => self.on_move_entry(entry, up),
            Message::EditEntry(entry) => (
                AppView { editing_entry: Some(Editing { entry: Some(entry) }), ..self },
                Seq::empty(),
            ),
            Message::FinishEdit { only_current } => self.on_finish_edit(only_current),
            Message::DeleteEntry(entry) => (AppView { pending_delete: Some(entry), ..self }, Seq::empty()),
            Message::ClearPendingDelete => (AppView { pending_delete: None, ..self }, Seq::empty()),
            Message::AcceptPendingDelete => self.on_accept_pending_delete(),
            Message::StartMigration => (AppView { migrating: true, ..self }, Seq::empty()),
            Message::DismissError(id) => (AppView { errors: dismissed(self.errors, id), ..self }, Seq::empty()),
            Message::Stepped(firing) => self.on_stepped(firing),
            Message::Animate(instant) => self.on_animate(instant),
        }
    }

    /// The screen that the window shows: a prompt while the vault is not
    /// open, then the entry in the making, then what is being edited, then
    /// the list of codes.
    pub open spec fn screen(self) -> Screen {
        match self.secret {
            StateView::Secrets(entries) => if self.new_entry is Some {
                Screen::NewEntry
            } else {
                match self.editing_entry {
                    Some(editing) => match editing.entry {
                        Some(index) => if index < entries.len() {
                            Screen::EditEntry(index)
                        } else {
                            Screen::EditList
                        },
                        None => Screen::EditList,
                    },
                    None => Screen::Main,
                }
            },
            StateView::AwaitingUnlock(LockedView::Sealed(_)) => Screen::Passphrase,
            _ => Screen::Login,
        }
    }

    /// The question put to the user before an entry is deleted, where a
    /// deletion waits for an entry that exists.
    pub open spec fn delete_prompt(self) -> Option<Seq<char>> {
        match self.pending_delete {
            Some(index) => if index < self.secret.entries().len() {
                let entry = self.secret.entries()[index as int];
                Some(
                    DELETE_QUESTION@ + entry.label + match entry.issuer {
                        Some(issuer) => " ("@ + issuer + ")"@,
                        None => Seq::empty(),
                    },
                )
            } else {
                None
            },
            None => None,
        }
    }

    /// The timers that the session needs at `now_millis`: while the window
    /// is shown and the vault is open, one for each step length in use.
    pub open spec fn timers(self, now_millis: u64) -> Seq<Schedule> {
        if self.popup {
            distinct_steps(self.secret.entries()).map_values(|step: u64| spec_schedule(step, now_millis))
        } else {
            Seq::empty()
        }
    }
}

/// Every message keeps a well-formed session well-formed: the caches stay
/// with their entries and no identifier comes twice.
pub proof fn lemma_step_keeps_wf(s: AppView, message: Message, entropy: Option<Seq<u8>>)
    requires
        s.wf(),
        s.secret.entries().len() <= u64::MAX,
    ensures
        s.step(message, entropy).0.wf(),
{
    let entries = s.secret.entries();
    assert(ids_of(Seq::<EntryView>::empty()) =~= Seq::<u64>::empty());
    match message {
        Message::RetrievedKey { result, .. } => {
            match loaded_entries(result) {
                Some(loaded) => {
                    assert(ids_of(loaded).no_duplicates());
                },
                None => {},
            }
        },
        Message::Entry(target, message) => {
            match target {
                EntryR::Index(index) => {
                    if s.secret is Secrets && index < entries.len() && index < s.runtime.len() {
                        let changed = entries.update(index as int, entries[index as int].after(message));
                        assert(ids_of(changed) =~= ids_of(entries));
                    }
                },
                EntryR::NewEntry => {},
            }
        },
        Message::NewEntryAccept => {
            if s.new_entry is Some && s.secret is Secrets {
                let id = least_free_id(ids_of(entries));
                lemma_fresh_id_exists(ids_of(entries));
                let after = entries.push(EntryView { id, ..s.new_entry->Some_0 });
                assert(ids_of(after) =~= ids_of(entries).push(id));
            }
        },
        Message::MoveEntry { entry, up } => {
            lemma_moved_keeps_ids(entries, entry, up);
        },
        Message::AcceptPendingDelete => {
            if s.pending_delete is Some {
                lemma_without_keeps_distinct(entries, s.pending_delete->Some_0);
            }
        },
        _ => {},
    }
}

/// After a logout nothing of the identity is left in the session: no
/// entry, no cache, no code, no passphrase, no name.
pub proof fn lemma_logout_wipes(s: AppView, entropy: Option<Seq<u8>>)
    ensures
        ({
            let next = s.step(Message::Logout, entropy).0;
            &&& next.secret is PendingUser
            &&& next.secret.entries().len() == 0
            &&& next.runtime.len() == 0
            &&& next.new_entry is None
            &&& next.new_runtime.output.len() == 0
            &&& next.passphrase is None
            &&& next.user is None
            &&& next.epoch != s.epoch
            &&& next.wf()
        }),
{
    assert(ids_of(Seq::<EntryView>::empty()) =~= Seq::<u64>::empty());
}

/// While the vault is not open no message yields a code: none is put on
/// the clipboard, none is cached, nothing is handed out to be stored. The
/// vault opens only on a message that unlocks it, in a session that has
/// selected an identity, and its caches are empty then. From a session
/// without an identity no single message opens it.
pub proof fn lemma_locked_yields_no_code(s: AppView, message: Message, entropy: Option<Seq<u8>>)
    requires
        s.wf(),
        !(s.secret is Secrets),
    ensures
        ({
            let (next, actions) = s.step(message, entropy);
            &&& forall|i: int|
                0 <= i < actions.len() ==> !(#[trigger] actions[i] is CopyToClipboard) && !(actions[i] is Save)
                    && !(actions[i] is Serialize) && !(actions[i] is StoreBlob)
            &&& next.new_entry is None
            &&& next.new_runtime.output.len() == 0
            &&& forall|i: int| 0 <= i < next.runtime.len() ==> (#[trigger] next.runtime[i]).output.len() == 0
            &&& next.secret is Secrets ==> unlocks(s, message) && s.secret is AwaitingUnlock
            &&& s.secret is PendingUser ==> next.secret is PendingUser || next.secret
                == StateView::AwaitingUnlock(LockedView::Loading)
        }),
{
}

/// An answer to a request of an earlier selection of the identity changes
/// nothing: what was asked before a logout, or before the identity was
/// selected again, cannot open the vault or be stored afterwards.
pub proof fn lemma_stale_answer_is_dropped(s: AppView, message: Message, entropy: Option<Seq<u8>>)
    requires
        match message {
            Message::RetrievedKey { ticket, .. } => ticket != s.epoch,
            Message::Serialized { ticket, .. } => ticket != s.epoch,
            _ => false,
        },
    ensures
        s.step(message, entropy) == (s, Seq::<ActionView>::empty()),
{
}

/// One message with the random bytes drawn for it.
pub struct Input {
    pub message: Message,
    pub entropy: Option<Seq<u8>>,
}

/// The session after a run of messages.
pub open spec fn run(s: AppView, inputs: Seq<Input>) -> AppView
    decreases inputs.len(),
{
    if inputs.len() == 0 {
        s
    } else {
        run(s, inputs.drop_last()).step(inputs.last().message, inputs.last().entropy).0
    }
}

/// Whether a message can open the vault of `s`: it answers a load or a
/// parse under the ticket of `s`, or it brings a passphrase that opens the
/// bytes that wait for one.
pub open spec fn unlocks(s: AppView, message: Message) -> bool {
    ||| message matches Message::RetrievedKey { ticket, .. } && ticket == s.epoch
    ||| message matches Message::PassphraseSubmit(text) && s.secret matches StateView::AwaitingUnlock(
        LockedView::Sealed(blob),
    ) && opened_envelope(text@, blob) is Ok
}

/// However many messages arrive, a vault that is not open stays so, and no
/// code exists, until a message unlocks it. After a logout nothing is under
/// way and no bytes wait, so only a new selection of the identity and the
/// answer to its load open the vault again.
pub proof fn lemma_no_code_until_unlocked(s: AppView, inputs: Seq<Input>)
    requires
        s.wf(),
        !(s.secret is Secrets),
        forall|i: int| 0 <= i < inputs.len() ==> !unlocks(run(s, inputs.take(i)), (#[trigger] inputs[i]).message),
    ensures
        ({
            let end = run(s, inputs);
            &&& end.wf()
            &&& !(end.secret is Secrets)
            &&& end.runtime.len() == 0
            &&& end.new_entry is None
            &&& end.new_runtime.output.len() == 0
        }),
    decreases inputs.len(),
{
    if inputs.len() > 0 {
        let before = inputs.drop_last();
        assert forall|i: int| 0 <= i < before.len() implies !unlocks(run(s, before.take(i)), (#[trigger] before[i]).message) by {
            assert(before.take(i) =~= inputs.take(i));
            assert(before[i] == inputs[i]);
        }
        lemma_no_code_until_unlocked(s, before);
        let mid = run(s, before);
        assert(inputs.take(inputs.len() - 1) =~= before);
        assert(!unlocks(mid, inputs[inputs.len() - 1].message));
        lemma_step_keeps_wf(mid, inputs.last().message, inputs.last().entropy);
        lemma_locked_yields_no_code(mid, inputs.last().message, inputs.last().entropy);
    }
}

/// While a load is under way no other is asked for.
pub proof fn lemma_one_load_at_a_time(s: AppView, message: Message, entropy: Option<Seq<u8>>)
    requires
        s.secret == StateView::AwaitingUnlock(LockedView::Loading),
    ensures
        ({
            let actions = s.step(message, entropy).1;
            forall|i: int| 0 <= i < actions.len() ==> !(#[trigger] actions[i] is Load)
        }),
{
}

/// A save that failed is shown and changes nothing else: what is in memory
/// stays as the user left it.
pub proof fn lemma_failed_save_keeps_the_vault(s: AppView, e: VaultError, entropy: Option<Seq<u8>>)
    ensures
        s.step(Message::SetKey(Err(e)), entropy) == (s.surfaced(e.spec_message()), Seq::<ActionView>::empty()),
        s.step(Message::SetKey(Err(e)), entropy).0.secret == s.secret,
        s.step(Message::SetKey(Err(e)), entropy).0.runtime == s.runtime,
{
}

/// A session whose vault is not open has no timer, and neither has one
/// whose window is hidden: a timer lives as long as its entries are shown.
pub proof fn lemma_locked_has_no_timers(s: AppView, now_millis: u64)
    requires
        !(s.secret is Secrets) || !s.popup,
    ensures
        s.timers(now_millis).len() == 0,
{
    assert(distinct_steps(Seq::<EntryView>::empty()) =~= Seq::<u64>::empty());
}

/// A vault without entries loads to the same however it was stored: as
/// nothing at all, as bytes of no length, encrypted or not, or as an empty
/// list. Each opens a vault without entries and shows no failure.
pub proof fn lemma_absent_is_empty(s: AppView, bytes: Vec<u8>, list: Vec<Entry>)
    requires
        s.secret == StateView::AwaitingUnlock(LockedView::Loading),
        bytes@.len() == 0,
        list@.len() == 0,
    ensures
        s.on_answer(LoadResult::NotFound) == (s.opened(Seq::empty()), Seq::<ActionView>::empty()),
        s.on_answer(LoadResult::Stored(bytes)) == s.on_answer(LoadResult::NotFound),
        s.on_answer(LoadResult::Sealed(bytes)) == s.on_answer(LoadResult::NotFound),
        s.on_answer(LoadResult::Found(list)) == s.on_answer(LoadResult::NotFound),
        s.opened(Seq::empty()).secret == StateView::Secrets(Seq::empty()),
        s.opened(Seq::empty()).errors == s.errors,
{
    assert(entries_view(list@) =~= Seq::<EntryView>::empty());
    assert(ids_of(entries_view(list@)) =~= Seq::<u64>::empty());
}

} // verus!
