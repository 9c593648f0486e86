//! The per-invocation lifecycle of a window command.
//!
//! Each invocation of `open` or `save` runs one instance of the state
//! machine
//!
//! ```text
//! Idle -> DialogOpen -> { Cancelled -> Idle
//!                       | Confirmed -> IoInFlight -> { Completed -> Idle
//!                                                    | Failed    -> Idle } }
//! ```
//!
//! and `close` tears the window down directly.  The machine never performs
//! a dialog or any file I/O itself: each transition hands back an [`Effect`]
//! that tells the surrounding event loop what to do, and the loop feeds the
//! outcome (the dialog's response, the operation's completion) back in.
//! Every terminal state is `Idle`; a failed operation leaves the buffer in
//! its prior state, and there is no retry.

use vstd::prelude::*;
use crate::actions::Command;
use crate::buffer::DocumentBuffer;

verus! {

/// Which file operation a dialog or an in-flight transfer belongs to.
#[derive(Clone, Copy, PartialEq, Eq, Structural, Debug)]
pub enum FileOp {
    /// Loading a file into the buffer.
    Open,
    /// Writing the buffer out to a file.
    Save,
}

/// Where one command invocation stands.
#[derive(Clone, Copy, PartialEq, Eq, Structural, Debug)]
pub enum OpState {
    /// No operation is running; the window is ready for the next command.
    Idle,
    /// A file-selection dialog is up, awaiting the user's response.
    DialogOpen(FileOp),
    /// A load or save is running against the chosen file.
    IoInFlight(FileOp),
}

/// What the user answered to a file-selection dialog.
#[derive(Clone, Copy, PartialEq, Eq, Structural, Debug)]
pub enum DialogResponse {
    /// The confirming button.
    Accept,
    /// The cancelling button, or dismissal of the dialog.
    Cancel,
}

/// Why an invocation ended without doing its work.  Every one of these is
/// recoverable: the buffer and the window stay intact, and the user may
/// simply reinvoke the action.
#[derive(Clone, Copy, PartialEq, Eq, Structural, Debug)]
pub enum OpError {
    /// The dialog's choice could not be resolved to a path.
    PathUnresolved,
    /// The chosen file could not be opened at all.
    OpenFailed,
    /// The transfer itself ended in failure.
    IoFailed,
}

/// How a load ended: with the file's bytes, or with one of its two ways of
/// failing.
#[derive(PartialEq, Eq, Debug)]
pub enum LoadOutcome {
    /// The whole file was read; these are its bytes.
    Loaded(Vec<u8>),
    /// The file could not be opened.
    OpenFailed,
    /// The file was opened but reading it failed.
    ReadFailed,
}

/// What the surrounding event loop must do after a transition.
#[derive(PartialEq, Eq, Debug)]
pub enum Effect {
    /// Nothing; control returns to the event loop.
    Nothing,
    /// Present a file-selection dialog for the given operation.
    ShowDialog(FileOp),
    /// Start loading the file at the given path into the buffer.
    StartLoad(String),
    /// Start writing the given bytes to the file at the given path.
    StartSave(String, Vec<u8>),
    /// Tear the window down.
    CloseWindow,
    /// Show the user a non-blocking notice of a failed invocation.
    Notice(OpError),
}

/// The bytes a save operation writes: exactly the buffer's content.
pub open spec fn save_payload(buffer: Seq<u8>) -> Seq<u8> {
    buffer
}

/// A file store after a save of `payload` to `path` has completed.
pub open spec fn store_after_save(
    store: Map<Seq<char>, Seq<u8>>,
    path: Seq<char>,
    payload: Seq<u8>,
) -> Map<Seq<char>, Seq<u8>> {
    store.insert(path, payload)
}

/// What a load from `path` delivers out of a file store, or nothing when
/// the path does not resolve to a file.
pub open spec fn loaded_contents(store: Map<Seq<char>, Seq<u8>>, path: Seq<char>) -> Option<
    Seq<u8>,
> {
    if store.contains_key(path) {
        Some(store[path])
    } else {
        None
    }
}

/// The buffer after a successful load delivered `data`: a full overwrite,
/// independent of what the buffer held before.
pub open spec fn buffer_after_load(prior: Seq<u8>, data: Seq<u8>) -> Seq<u8> {
    data
}

/// One editor window: its document buffer, whether it is still up, and
/// where the current command invocation stands.
pub struct EditorWindow {
    buffer: DocumentBuffer,
    state: OpState,
    open: bool,
}

impl EditorWindow {
    /// The bytes the window's buffer holds.
    pub closed spec fn buffer_bytes(&self) -> Seq<u8> {
        self.buffer@
    }

    /// The window's buffer, whole.
    pub closed spec fn buffer_view(&self) -> DocumentBuffer {
        self.buffer
    }

    /// Where the current invocation stands.
    pub closed spec fn state(&self) -> OpState {
        self.state
    }

    /// Whether the window is still up (not yet torn down).
    pub closed spec fn is_open(&self) -> bool {
        self.open
    }

    /// A window over the given buffer: up, idle, no operation running.
    pub fn new(buffer: DocumentBuffer) -> (w: EditorWindow)
        ensures
            w.buffer_view() == buffer,
            w.buffer_bytes() == buffer@,
            w.state() == OpState::Idle,
            w.is_open(),
    {
        EditorWindow { buffer, state: OpState::Idle, open: true }
    }

    /// Where the current invocation stands.
    pub fn current_state(&self) -> (s: OpState)
        ensures
            s == self.state(),
    {
        self.state
    }

    /// Whether the window is still up.
    pub fn window_is_open(&self) -> (r: bool)
        ensures
            r == self.is_open(),
    {
        self.open
    }

    /// A copy of the buffer's whole content.
    pub fn buffer_contents(&self) -> (r: Vec<u8>)
        ensures
            r@ == self.buffer_bytes(),
    {
        self.buffer.contents()
    }

    /// Invoke one of the window's commands.
    ///
    /// `close` tears the window down whatever the buffer holds: there is no
    /// unsaved-changes prompt, and a dialog or transfer still underway is
    /// simply abandoned with the window.  `open` and `save` start a fresh
    /// invocation, so they ask for an idle window, and raise the dialog for
    /// their operation.  No command touches the buffer.
    pub fn invoke(&mut self, command: Command) -> (effect: Effect)
        requires
            old(self).is_open(),
            command == Command::Close || old(self).state() == OpState::Idle,
        ensures
            final(self).buffer_view() == old(self).buffer_view(),
            final(self).buffer_bytes() == old(self).buffer_bytes(),
            command == Command::Close ==> {
                &&& !final(self).is_open()
                &&& final(self).state() == OpState::Idle
                &&& effect == Effect::CloseWindow
            },
            command == Command::Open ==> {
                &&& final(self).is_open()
                &&& final(self).state() == OpState::DialogOpen(FileOp::Open)
                &&& effect == Effect::ShowDialog(FileOp::Open)
            },
            command == Command::Save ==> {
                &&& final(self).is_open()
                &&& final(self).state() == OpState::DialogOpen(FileOp::Save)
                &&& effect == Effect::ShowDialog(FileOp::Save)
            },
    {
        match command {
            Command::Close => {
                self.open = false;
                self.state = OpState::Idle;
                Effect::CloseWindow
            },
            Command::Open => {
                self.state = OpState::DialogOpen(FileOp::Open);
                Effect::ShowDialog(FileOp::Open)
            },
            Command::Save => {
                self.state = OpState::DialogOpen(FileOp::Save);
                Effect::ShowDialog(FileOp::Save)
            },
        }
    }

    /// Feed the user's answer to the open dialog back in.
    ///
    /// `path` carries the resolved location of the dialog's choice, or
    /// nothing when no path could be resolved from it.  Cancel, and a choice
    /// with no path, end the invocation with the buffer untouched; a
    /// resolved choice starts the load.
    pub fn dialog_response_open(
        &mut self,
        response: DialogResponse,
        path: Option<String>,
    ) -> (effect: Effect)
        requires
            old(self).state() == OpState::DialogOpen(FileOp::Open),
        ensures
            final(self).buffer_view() == old(self).buffer_view(),
            final(self).buffer_bytes() == old(self).buffer_bytes(),
            final(self).is_open() == old(self).is_open(),
            response == DialogResponse::Cancel ==> {
                &&& final(self).state() == OpState::Idle
                &&& effect == Effect::Nothing
            },
            response == DialogResponse::Accept && path is None ==> {
                &&& final(self).state() == OpState::Idle
                &&& effect == Effect::Notice(OpError::PathUnresolved)
            },
            response == DialogResponse::Accept && path is Some ==> {
                &&& final(self).state() == OpState::IoInFlight(FileOp::Open)
                &&& effect == Effect::StartLoad(path->Some_0)
            },
    {
        match response {
            DialogResponse::Cancel => {
                self.state = OpState::Idle;
                Effect::Nothing
            },
            DialogResponse::Accept => {
                match path {
                    None => {
                        self.state = OpState::Idle;
                        Effect::Notice(OpError::PathUnresolved)
                    },
                    Some(p) => {
                        self.state = OpState::IoInFlight(FileOp::Open);
                        Effect::StartLoad(p)
                    },
                }
            },
        }
    }

    /// Feed the user's answer to the save dialog back in.
    ///
    /// As for the open dialog, except that a resolved choice starts a save
    /// whose payload is exactly the buffer's current content.
    pub fn dialog_response_save(
        &mut self,
        response: DialogResponse,
        path: Option<String>,
    ) -> (effect: Effect)
        requires
            old(self).state() == OpState::DialogOpen(FileOp::Save),
        ensures
            final(self).buffer_view() == old(self).buffer_view(),
            final(self).buffer_bytes() == old(self).buffer_bytes(),
            final(self).is_open() == old(self).is_open(),
            response == DialogResponse::Cancel ==> {
                &&& final(self).state() == OpState::Idle
                &&& effect == Effect::Nothing
            },
            response == DialogResponse::Accept && path is None ==> {
                &&& final(self).state() == OpState::Idle
                &&& effect == Effect::Notice(OpError::PathUnresolved)
            },
            response == DialogResponse::Accept && path is Some ==> {
                &&& final(self).state() == OpState::IoInFlight(FileOp::Save)
                &&& (effect matches Effect::StartSave(p, data)
                    && p == path->Some_0
                    && data@ == save_payload(old(self).buffer_bytes()))
            },
    {
        match response {
            DialogResponse::Cancel => {
                self.state = OpState::Idle;
                Effect::Nothing
            },
            DialogResponse::Accept => {
                match path {
                    None => {
                        self.state = OpState::Idle;
                        Effect::Notice(OpError::PathUnresolved)
                    },
                    Some(p) => {
                        self.state = OpState::IoInFlight(FileOp::Save);
                        let data = self.buffer.contents();
                        Effect::StartSave(p, data)
                    },
                }
            },
        }
    }

    /// Feed a load's completion back in.
    ///
    /// Success delivers the file's bytes and replaces the buffer's whole
    /// content with exactly them; either failure leaves the buffer in its
    /// prior state and raises a notice naming it.  Either way the
    /// invocation is over and the window is idle again.
    pub fn complete_load(&mut self, outcome: LoadOutcome) -> (effect: Effect)
        requires
            old(self).state() == OpState::IoInFlight(FileOp::Open),
        ensures
            final(self).state() == OpState::Idle,
            final(self).is_open() == old(self).is_open(),
            outcome matches LoadOutcome::Loaded(d) ==> {
                &&& final(self).buffer_bytes() == buffer_after_load(old(self).buffer_bytes(), d@)
                &&& effect == Effect::Nothing
            },
            !(outcome matches LoadOutcome::Loaded(_)) ==> {
                &&& final(self).buffer_view() == old(self).buffer_view()
                &&& final(self).buffer_bytes() == old(self).buffer_bytes()
            },
            outcome == LoadOutcome::OpenFailed ==> effect == Effect::Notice(OpError::OpenFailed),
            outcome == LoadOutcome::ReadFailed ==> effect == Effect::Notice(OpError::IoFailed),
    {
        self.state = OpState::Idle;
        match outcome {
            LoadOutcome::Loaded(d) => {
                self.buffer.replace_contents(d);
                Effect::Nothing
            },
            LoadOutcome::OpenFailed => Effect::Notice(OpError::OpenFailed),
            LoadOutcome::ReadFailed => Effect::Notice(OpError::IoFailed),
        }
    }

    /// Feed a save's completion back in.
    ///
    /// A save never changes the buffer; failure raises a notice.  Either
    /// way the invocation is over and the window is idle again.
    pub fn complete_save(&mut self, succeeded: bool) -> (effect: Effect)
        requires
            old(self).state() == OpState::IoInFlight(FileOp::Save),
        ensures
            final(self).state() == OpState::Idle,
            final(self).is_open() == old(self).is_open(),
            final(self).buffer_view() == old(self).buffer_view(),
            final(self).buffer_bytes() == old(self).buffer_bytes(),
            succeeded ==> effect == Effect::Nothing,
            !succeeded ==> effect == Effect::Notice(OpError::IoFailed),
    {
        self.state = OpState::Idle;
        if succeeded {
            Effect::Nothing
        } else {
            Effect::Notice(OpError::IoFailed)
        }
    }
}

/// Law: the round trip.  Saving buffer content `content` to `path` writes
/// exactly `content` into the store, and re-opening `path` afterwards
/// delivers those bytes and makes them the buffer's whole content — so a
/// buffer holding `prior`, after the re-open, holds `content` again.
pub proof fn lemma_save_open_round_trip(
    store: Map<Seq<char>, Seq<u8>>,
    path: Seq<char>,
    content: Seq<u8>,
    prior: Seq<u8>,
)
    ensures
        loaded_contents(store_after_save(store, path, save_payload(content)), path) == Some(
            content,
        ),
        buffer_after_load(
            prior,
            loaded_contents(store_after_save(store, path, save_payload(content)), path)->Some_0,
        ) == content,
{
}

} // verus!
