//! One credential of the vault: the record that is stored, the cache that
//! lives beside it while the vault is open, and the edits that change them.

use vstd::prelude::*;
use vstd::string::*;
use crate::clock::{schedule, spec_schedule, Schedule};
use crate::icon::{initials_of, IconView, TotpIcon, PLACEHOLDER};
use crate::views::{clone_bytes, clone_text, text_view};
use crate::totp::{
    base32_decoded, code_at, decode_secret, generate, secret_of, Algorithm, SecretDecodeError, MAX_DIGITS,
};

verus! {

/// Which entry a message is meant for.
#[derive(Debug, Clone, Copy, Hash, PartialEq, Eq, Structural)]
pub enum EntryR {
    /// The entry that is being created.
    NewEntry,
    /// The entry at this position of the vault.
    Index(u32),
}

/// An edit of one entry, or an event of its clock.
#[derive(Debug, Clone, PartialEq, Eq)]
pub enum EntryMessage {
    GetIconFile,
    SetIconFile(String),
    NameEdit(String),
    Algorithm(Algorithm),
    Digits(usize),
    Step(u64),
    Skew(u8),
    Secret(String),
    CancelledIconFile,
    Issuer(Option<String>),
    /// A step boundary: the monotonic instant at which the step began, in
    /// milliseconds, and the wall-clock time in seconds.
    Stepped(u64, u64),
    /// A frame of the countdown animation, by its monotonic instant.
    Animate(u64),
    Noop,
    CopyOutput,
}

impl EntryMessage {
    /// Whether the message is an edit of the stored record, which is
    /// followed by a save where it is accepted.
    pub open spec fn is_edit(&self) -> bool {
        match self {
            EntryMessage::SetIconFile(_) => true,
            EntryMessage::NameEdit(_) => true,
            EntryMessage::Algorithm(_) => true,
            EntryMessage::Digits(_) => true,
            EntryMessage::Step(_) => true,
            EntryMessage::Skew(_) => true,
            EntryMessage::Secret(_) => true,
            EntryMessage::Issuer(_) => true,
            _ => false,
        }
    }

    /// The edit of the issuer to a text as it was typed: a text of no
    /// length means no issuer.
    pub fn issuer(text: String) -> (message: EntryMessage)
        ensures
            message matches EntryMessage::Issuer(issuer) && text_view(issuer) == if text@.len() == 0 {
                None::<Seq<char>>
            } else {
                Some(text@)
            },
    {
        if text.as_str().unicode_len() == 0 {
            EntryMessage::Issuer(None)
        } else {
            EntryMessage::Issuer(Some(text))
        }
    }

    /// Whether the message is an edit of the stored record.
    pub fn edits(&self) -> (b: bool)
        ensures
            b == self.is_edit(),
    {
        match self {
            EntryMessage::SetIconFile(_) => true,
            EntryMessage::NameEdit(_) => true,
            EntryMessage::Algorithm(_) => true,
            EntryMessage::Digits(_) => true,
            EntryMessage::Step(_) => true,
            EntryMessage::Skew(_) => true,
            EntryMessage::Secret(_) => true,
            EntryMessage::Issuer(_) => true,
            _ => false,
        }
    }
}

/// What is left to do outside the library after an edit.
#[derive(Debug, Clone, PartialEq, Eq)]
pub enum EntryTask {
    /// Nothing is left to do.
    Nothing,
    /// Ask the user for an image file.
    PickIconFile,
    /// Put this text on the clipboard.
    CopyToClipboard(String),
}

/// Mathematical value of an [`EntryTask`].
pub enum TaskView {
    Nothing,
    PickIconFile,
    CopyToClipboard(Seq<char>),
}

impl View for EntryTask {
    type V = TaskView;

    open spec fn view(&self) -> TaskView {
        match self {
            EntryTask::Nothing => TaskView::Nothing,
            EntryTask::PickIconFile => TaskView::PickIconFile,
            EntryTask::CopyToClipboard(text) => TaskView::CopyToClipboard(text@),
        }
    }
}

/// The stored record of a credential.
#[derive(Debug, PartialEq, Eq)]
pub struct Entry {
    /// Identifier, unique within a vault and assigned when the entry joins it.
    pub id: u64,
    pub icon: TotpIcon,
    pub label: String,
    pub issuer: Option<String>,
    /// The decoded secret.
    pub secret: Vec<u8>,
    pub algorithm: Algorithm,
    pub digits: usize,
    /// Seconds for which one code is valid.
    pub step: u64,
    /// Adjacent steps a verifier should accept; kept, not used for generation.
    pub skew: u8,
}

/// Mathematical value of an [`Entry`].
pub struct EntryView {
    pub id: u64,
    pub icon: IconView,
    pub label: Seq<char>,
    pub issuer: Option<Seq<char>>,
    pub secret: Seq<u8>,
    pub algorithm: Algorithm,
    pub digits: usize,
    pub step: u64,
    pub skew: u8,
}

/// What is known of an entry only while the vault is open. Never stored.
#[derive(Debug, PartialEq, Eq)]
pub struct EntryRuntime {
    /// Identifier of the entry that this cache belongs to.
    pub id: u64,
    /// The secret as the user last typed it, valid or not.
    pub secret_text: String,
    /// The code generated last; empty before the first one.
    pub output: String,
    /// Monotonic instant, in milliseconds, at which the step of `output` began.
    pub last_output: u64,
    /// Monotonic instant of the latest animation frame.
    pub current_output: u64,
}

/// Mathematical value of an [`EntryRuntime`].
pub struct RuntimeView {
    pub id: u64,
    pub secret_text: Seq<char>,
    pub output: Seq<char>,
    pub last_output: u64,
    pub current_output: u64,
}

pub open spec fn task_result_view(r: Result<EntryTask, SecretDecodeError>) -> Result<TaskView, SecretDecodeError> {
    match r {
        Ok(task) => Ok(task@),
        Err(e) => Err(e),
    }
}

impl View for Entry {
    type V = EntryView;

    open spec fn view(&self) -> EntryView {
        EntryView {
            id: self.id,
            icon: self.icon@,
            label: self.label@,
            issuer: text_view(self.issuer),
            secret: self.secret@,
            algorithm: self.algorithm,
            digits: self.digits,
            step: self.step,
            skew: self.skew,
        }
    }
}

impl View for EntryRuntime {
    type V = RuntimeView;

    open spec fn view(&self) -> RuntimeView {
        RuntimeView {
            id: self.id,
            secret_text: self.secret_text@,
            output: self.output@,
            last_output: self.last_output,
            current_output: self.current_output,
        }
    }
}

impl Clone for Entry {
    fn clone(&self) -> (copy: Self)
        ensures
            copy@ == self@,
    {
        Entry {
            id: self.id,
            icon: self.icon.clone(),
            label: self.label.clone(),
            issuer: clone_text(&self.issuer),
            secret: clone_bytes(&self.secret),
            algorithm: self.algorithm,
            digits: self.digits,
            step: self.step,
            skew: self.skew,
        }
    }
}

impl Clone for EntryRuntime {
    fn clone(&self) -> (copy: Self)
        ensures
            copy@ == self@,
    {
        EntryRuntime {
            id: self.id,
            secret_text: self.secret_text.clone(),
            output: self.output.clone(),
            last_output: self.last_output,
            current_output: self.current_output,
        }
    }
}

impl EntryView {
    /// The name that initials are taken from: the issuer where there is
    /// one, else the label.
    pub open spec fn display_name(self) -> Seq<char> {
        match self.issuer {
            Some(issuer) => issuer,
            None => self.label,
        }
    }

    /// The entry with its initials taken anew from its name. An image that
    /// the user chose stays.
    pub open spec fn with_icon_refreshed(self) -> EntryView {
        if self.icon is Initials {
            EntryView { icon: IconView::Initials { initials: initials_of(self.display_name()) }, ..self }
        } else {
            self
        }
    }

    /// Whether a code can be generated: the secret is not empty, the step
    /// is not zero and the digit count is within what 32 bits can hold.
    pub open spec fn can_generate(self) -> bool {
        self.secret.len() > 0 && self.step > 0 && self.digits <= MAX_DIGITS
    }

    /// The code shown at `time`: the generated one, or none where none can
    /// be generated.
    pub open spec fn code(self, time: u64) -> Seq<char> {
        if self.can_generate() {
            code_at(self.secret, self.algorithm, self.digits, self.step, time)
        } else {
            Seq::empty()
        }
    }

    /// The entry after a message. A secret that does not decode leaves the
    /// entry as it was.
    pub open spec fn after(self, message: EntryMessage) -> EntryView {
        match message {
            EntryMessage::SetIconFile(path) => EntryView { icon: IconView::Image { path: path@ }, ..self },
            EntryMessage::NameEdit(name) => (EntryView { label: name@, ..self }).with_icon_refreshed(),
            EntryMessage::Algorithm(algorithm) => EntryView { algorithm, ..self },
            EntryMessage::Digits(digits) => EntryView { digits, ..self },
            EntryMessage::Step(step) => EntryView { step, ..self },
            EntryMessage::Skew(skew) => EntryView { skew, ..self },
            EntryMessage::Secret(text) => match secret_of(base32_decoded(text@)) {
                Ok(secret) => EntryView { secret, ..self },
                Err(_) => self,
            },
            EntryMessage::Issuer(issuer) => (EntryView { issuer: text_view(issuer), ..self }).with_icon_refreshed(),
            _ => self,
        }
    }

    /// What a message asks of the outside, or the error it ends in.
    pub open spec fn task(self, runtime: RuntimeView, message: EntryMessage) -> Result<TaskView, SecretDecodeError> {
        match message {
            EntryMessage::GetIconFile => Ok(TaskView::PickIconFile),
            EntryMessage::Secret(text) => match secret_of(base32_decoded(text@)) {
                Ok(_) => Ok(TaskView::Nothing),
                Err(e) => Err(e),
            },
            EntryMessage::CopyOutput => Ok(TaskView::CopyToClipboard(runtime.output)),
            _ => Ok(TaskView::Nothing),
        }
    }
}

impl RuntimeView {
    /// Milliseconds between the start of the step and the latest frame.
    pub open spec fn elapsed_millis(self) -> int {
        if self.current_output >= self.last_output {
            self.current_output - self.last_output
        } else {
            0
        }
    }

    /// The cache of `entry` after a message. Only a step boundary changes
    /// the code; an animation frame moves the latest instant alone.
    pub open spec fn after(self, entry: EntryView, message: EntryMessage) -> RuntimeView {
        match message {
            EntryMessage::Secret(text) => RuntimeView { secret_text: text@, ..self },
            EntryMessage::Stepped(instant, time) => RuntimeView {
                output: entry.code(time),
                last_output: instant,
                current_output: instant,
                ..self
            },
            EntryMessage::Animate(instant) => RuntimeView { current_output: instant, ..self },
            _ => self,
        }
    }
}

impl Entry {
    /// An entry as it stands before the user has typed anything.
    pub fn new() -> (entry: Entry)
        ensures
            entry@ == Entry::spec_new(),
    {
        let mut initials = String::new();
        initials.push(PLACEHOLDER);
        let entry = Entry {
            id: 0,
            icon: TotpIcon::Initials { initials },
            label: String::new(),
            issuer: None,
            secret: Vec::new(),
            algorithm: Algorithm::SHA1,
            digits: 6,
            step: 30,
            skew: 1,
        };
        assert(entry.icon@ == (IconView::Initials { initials: seq![PLACEHOLDER] })) by {
            assert(initials@ =~= seq![PLACEHOLDER]);
        }
        entry
    }

    pub open spec fn spec_new() -> EntryView {
        EntryView {
            id: 0,
            icon: IconView::Initials { initials: seq![PLACEHOLDER] },
            label: Seq::empty(),
            issuer: None,
            secret: Seq::empty(),
            algorithm: Algorithm::SHA1,
            digits: 6,
            step: 30,
            skew: 1,
        }
    }

    /// Takes the initials anew from the issuer, or from the label where
    /// there is no issuer, unless the icon is an image.
    pub fn recalc_icon(&mut self)
        ensures
            final(self)@ == old(self)@.with_icon_refreshed(),
    {
        if self.icon.is_initials() {
            let icon = match &self.issuer {
                Some(issuer) => TotpIcon::default_for_name(issuer.as_str()),
                None => TotpIcon::default_for_name(self.label.as_str()),
            };
            self.icon = icon;
        }
    }

    /// Decodes the secret that the user typed and stores it. Text that does
    /// not decode, or decodes to nothing, is an error and changes nothing.
    pub fn recalc_secret(&mut self, text: &str) -> (r: Result<(), SecretDecodeError>)
        ensures
            match secret_of(base32_decoded(text@)) {
                Ok(secret) => r is Ok && final(self)@ == (EntryView { secret, ..old(self)@ }),
                Err(e) => r == Err::<(), SecretDecodeError>(e) && final(self)@ == old(self)@,
            },
    {
        match decode_secret(text) {
            Ok(secret) => {
                self.secret = secret;
                Ok(())
            },
            Err(e) => Err(e),
        }
    }

    /// Whether a code can be generated for this entry.
    pub fn can_generate(&self) -> (b: bool)
        ensures
            b == self@.can_generate(),
    {
        self.secret.len() > 0 && self.step > 0 && self.digits <= MAX_DIGITS
    }

    /// The code of this entry at `time`, empty where none can be generated.
    pub fn code(&self, time: u64) -> (code: String)
        ensures
            code@ == self@.code(time),
    {
        if self.can_generate() {
            generate(self.secret.as_slice(), self.algorithm, self.digits, self.step, time)
        } else {
            String::new()
        }
    }

    /// The timer of this entry at the wall-clock time `now_millis`, in
    /// milliseconds. An entry with a step of zero has none.
    pub fn subscription(&self, now_millis: u64) -> (timer: Option<Schedule>)
        ensures
            timer == if self.step > 0 {
                Some(spec_schedule(self.step, now_millis))
            } else {
                None
            },
    {
        if self.step > 0 {
            Some(schedule(self.step, now_millis))
        } else {
            None
        }
    }

    /// Applies one message to the entry and its cache.
    pub fn update(&mut self, runtime: &mut EntryRuntime, message: EntryMessage) -> (r: Result<
        EntryTask,
        SecretDecodeError,
    >)
        ensures
            final(self)@ == old(self)@.after(message),
            final(runtime)@ == old(runtime)@.after(old(self)@, message),
            task_result_view(r) == old(self)@.task(old(runtime)@, message),
    {
        match message {
            EntryMessage::GetIconFile => Ok(EntryTask::PickIconFile),
            EntryMessage::SetIconFile(path) => {
                self.icon = TotpIcon::Image { path };
                Ok(EntryTask::Nothing)
            },
            EntryMessage::NameEdit(name) => {
                self.label = name;
                self.recalc_icon();
                Ok(EntryTask::Nothing)
            },
            EntryMessage::Algorithm(algorithm) => {
                self.algorithm = algorithm;
                Ok(EntryTask::Nothing)
            },
            EntryMessage::Digits(digits) => {
                self.digits = digits;
                Ok(EntryTask::Nothing)
            },
            EntryMessage::Step(step) => {
                self.step = step;
                Ok(EntryTask::Nothing)
            },
            EntryMessage::Skew(skew) => {
                self.skew = skew;
                Ok(EntryTask::Nothing)
            },
            EntryMessage::Secret(text) => {
                let decoded = self.recalc_secret(text.as_str());
                runtime.secret_text = text;
                match decoded {
                    Ok(()) => Ok(EntryTask::Nothing),
                    Err(e) => Err(e),
                }
            },
            EntryMessage::CancelledIconFile => Ok(EntryTask::Nothing),
            EntryMessage::Issuer(issuer) => {
                self.issuer = issuer;
                self.recalc_icon();
                Ok(EntryTask::Nothing)
            },
            EntryMessage::Stepped(instant, time) => {
                runtime.output = self.code(time);
                runtime.last_output = instant;
                runtime.current_output = instant;
                Ok(EntryTask::Nothing)
            },
            EntryMessage::Animate(instant) => {
                runtime.current_output = instant;
                Ok(EntryTask::Nothing)
            },
            EntryMessage::Noop => Ok(EntryTask::Nothing),
            EntryMessage::CopyOutput => Ok(EntryTask::CopyToClipboard(runtime.output.clone())),
        }
    }
}

/// An animation frame changes no code, and neither does any edit: only a
/// step boundary does.
pub proof fn lemma_code_changes_at_boundaries_only(runtime: RuntimeView, entry: EntryView, message: EntryMessage)
    requires
        !(message is Stepped),
    ensures
        runtime.after(entry, message).output == runtime.output,
        runtime.after(entry, message).last_output == runtime.last_output,
{
}

/// Thousandths of a step, the most that a countdown shows as elapsed.
pub const FULL_PERMILLE: u64 = 1000;

impl EntryRuntime {
    /// The cache of an entry for which nothing was generated yet.
    pub fn new(id: u64) -> (runtime: EntryRuntime)
        ensures
            runtime@ == EntryRuntime::spec_new(id),
    {
        EntryRuntime { id, secret_text: String::new(), output: String::new(), last_output: 0, current_output: 0 }
    }

    pub open spec fn spec_new(id: u64) -> RuntimeView {
        RuntimeView { id, secret_text: Seq::empty(), output: Seq::empty(), last_output: 0, current_output: 0 }
    }

    /// Milliseconds between the start of the step and the latest frame;
    /// zero where the frame is the earlier of the two.
    pub fn elapsed_millis(&self) -> (ms: u64)
        ensures
            ms == self@.elapsed_millis(),
    {
        if self.current_output >= self.last_output {
            self.current_output - self.last_output
        } else {
            0
        }
    }

    /// Whole seconds of a step of `step` seconds that are still to come.
    pub fn countdown_seconds(&self, step: u64) -> (secs: u64)
        ensures
            secs == spec_countdown_seconds(self@.elapsed_millis(), step),
    {
        let elapsed = self.elapsed_millis() / 1000;
        if step >= elapsed {
            step - elapsed
        } else {
            0
        }
    }

    /// The part of a step of `step` seconds that has elapsed, in
    /// thousandths, at most a thousand.
    pub fn elapsed_permille(&self, step: u64) -> (permille: u64)
        ensures
            permille == spec_elapsed_permille(self@.elapsed_millis(), step),
            permille <= FULL_PERMILLE,
    {
        if step == 0 {
            FULL_PERMILLE
        } else {
            let part = self.elapsed_millis() / step;
            if part > FULL_PERMILLE {
                FULL_PERMILLE
            } else {
                part
            }
        }
    }
}

pub open spec fn spec_countdown_seconds(elapsed_millis: int, step: u64) -> int {
    if step >= elapsed_millis / 1000 {
        step - elapsed_millis / 1000
    } else {
        0
    }
}

/// `elapsed / (step * 1000)` in thousandths, which is `elapsed / step`,
/// capped at a thousand. A step of zero counts as elapsed.
pub open spec fn spec_elapsed_permille(elapsed_millis: int, step: u64) -> int {
    if step == 0 || elapsed_millis / (step as int) > FULL_PERMILLE {
        FULL_PERMILLE as int
    } else {
        elapsed_millis / (step as int)
    }
}

} // verus!
