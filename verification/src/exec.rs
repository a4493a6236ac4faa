//! Replacing the running image: the rules that a kernel would apply, applied
//! from user space.
//!
//! A replacement is a run of actions on files and descriptors that only the
//! caller can perform. [`execve`] decides after each of them what comes next:
//! the caller performs the action, reports what came of it, and is told the
//! next one, until the new image has taken over or an error is to be returned.

use crate::access::CredentialContext;
use crate::c_str::from_bytes_with_nul;
use crate::c_str::is_c_string;
use crate::error::ExecError;
use crate::filetable::is_cloexec;
use crate::filetable::parse_descriptor;
use crate::filetable::spec_is_cloexec;
use crate::filetable::spec_parse_descriptor;
use crate::script::interpreter_path;
use crate::script::is_shebang;
use crate::script::spec_interpreter_path;
use crate::script::spec_is_shebang;
use vstd::prelude::*;
use vstd::slice::slice_to_vec;

verus! {

/// The bytes of all of `items` together.
pub open spec fn total_len(items: Seq<Seq<u8>>) -> nat
    decreases items.len(),
{
    if items.len() == 0 {
        0
    } else {
        total_len(items.drop_last()) + items.last().len()
    }
}

/// `items` one after the other, each followed by a NUL.
pub open spec fn flat_nul(items: Seq<Seq<u8>>) -> Seq<u8>
    decreases items.len(),
{
    if items.len() == 0 {
        Seq::empty()
    } else {
        flat_nul(items.drop_last()) + items.last().push(0)
    }
}

/// A flattened list is as long as its items and their NULs together.
pub proof fn lemma_flat_nul_len(items: Seq<Seq<u8>>)
    ensures
        flat_nul(items).len() == total_len(items) + items.len(),
    decreases items.len(),
{
    if items.len() > 0 {
        lemma_flat_nul_len(items.drop_last());
    }
}

/// Writes `items` into one buffer, a NUL after each.
pub fn flatten_with_nul(items: &Vec<Vec<u8>>) -> (flat: Vec<u8>)
    ensures
        flat@ == flat_nul(items.deep_view()),
{
    let mut flat: Vec<u8> = Vec::new();
    let mut i: usize = 0;
    while i < items.len()
        invariant
            i <= items.len(),
            flat@ == flat_nul(items.deep_view().take(i as int)),
        decreases items.len() - i,
    {
        let item = &items[i];
        let ghost before = flat@;
        let mut j: usize = 0;
        while j < item.len()
            invariant
                j <= item.len(),
                flat@ == before + item@.take(j as int),
            decreases item.len() - j,
        {
            flat.push(item[j]);
            j += 1;
            assert(item@.take(j as int) =~= item@.take(j - 1).push(item@[j - 1]));
        }
        flat.push(0);
        proof {
            let done = items.deep_view().take(i + 1);
            assert(done.drop_last() =~= items.deep_view().take(i as int));
            assert(done.last() == item@);
            assert(item@.take(item@.len() as int) =~= item@);
            assert(flat@ =~= flat_nul(done.drop_last()) + done.last().push(0));
        }
        i += 1;
    }
    assert(items.deep_view().take(i as int) =~= items.deep_view());
    flat
}

/// The bytes of the first `k` items are no more than the bytes of all of them.
pub proof fn lemma_total_len_prefix(items: Seq<Seq<u8>>, k: int)
    requires
        0 <= k <= items.len(),
    ensures
        total_len(items.take(k)) <= total_len(items),
    decreases items.len() - k,
{
    if k < items.len() {
        lemma_total_len_prefix(items, k + 1);
        assert(items.take(k + 1).drop_last() =~= items.take(k));
    } else {
        assert(items.take(k) =~= items);
    }
}

/// Putting one item in front adds its bytes.
pub proof fn lemma_total_len_insert_first(items: Seq<Seq<u8>>, first: Seq<u8>)
    ensures
        total_len(items.insert(0, first)) == total_len(items) + first.len(),
    decreases items.len(),
{
    let all = items.insert(0, first);
    if items.len() == 0 {
        assert(all.drop_last() =~= Seq::<Seq<u8>>::empty());
        assert(all.last() == first);
        assert(total_len(all) == total_len(all.drop_last()) + all.last().len());
    } else {
        lemma_total_len_insert_first(items.drop_last(), first);
        assert(all.drop_last() =~= items.drop_last().insert(0, first));
        assert(all.last() == items.last());
    }
}

/// The bytes of all of `items` together, where that number fits a `usize`.
pub fn checked_total_len(items: &Vec<Vec<u8>>) -> (r: Option<usize>)
    ensures
        match r {
            Some(n) => n == total_len(items.deep_view()),
            None => total_len(items.deep_view()) > usize::MAX,
        },
{
    let mut sum: usize = 0;
    let mut i: usize = 0;
    while i < items.len()
        invariant
            i <= items.len(),
            sum == total_len(items.deep_view().take(i as int)),
        decreases items.len() - i,
    {
        proof {
            let done = items.deep_view().take(i + 1);
            assert(done.drop_last() =~= items.deep_view().take(i as int));
            assert(done.last() == items[i as int]@);
            lemma_total_len_prefix(items.deep_view(), i + 1);
        }
        sum = match sum.checked_add(items[i].len()) {
            Some(next) => next,
            None => {
                return None;
            },
        };
        i += 1;
    }
    assert(items.deep_view().take(i as int) =~= items.deep_view());
    Some(sum)
}

/// The arguments and the environment that a replacement starts from.
#[derive(Clone, Debug)]
pub enum ArgEnv {
    /// The strings of a C caller's two pointer arrays, in their order and
    /// without their NULs.
    C { argv: Vec<Vec<u8>>, envp: Vec<Vec<u8>> },
    /// Strings that were gathered before, with the size that was worked out for them.
    Parsed { args: Vec<Vec<u8>>, envs: Vec<Vec<u8>>, total_args_envs_size: usize },
}

impl ArgEnv {
    /// The bytes that all the strings need once each is followed by a NUL; for
    /// gathered strings, the size that came with them.
    pub open spec fn spec_size(self) -> nat {
        match self {
            ArgEnv::C { argv, envp } => total_len(argv.deep_view()) + total_len(envp.deep_view())
                + argv@.len() + envp@.len(),
            ArgEnv::Parsed { total_args_envs_size, .. } => total_args_envs_size as nat,
        }
    }

    /// The size to hand on with the strings, where it fits a `usize`.
    pub fn checked_size(&self) -> (r: Option<usize>)
        ensures
            match r {
                Some(n) => n == self.spec_size(),
                None => self.spec_size() > usize::MAX,
            },
    {
        match self {
            ArgEnv::C { argv, envp } => {
                let args_len = checked_total_len(argv)?;
                let envs_len = checked_total_len(envp)?;
                let strings = args_len.checked_add(envs_len)?;
                let with_args = strings.checked_add(argv.len())?;
                with_args.checked_add(envp.len())
            },
            ArgEnv::Parsed { total_args_envs_size, .. } => Some(*total_args_envs_size),
        }
    }
}

/// A handle that a replacement opens and has to account for.
#[derive(Clone, Copy, Debug, PartialEq, Eq, Structural)]
pub enum Handle {
    /// The file to run, or the interpreter that took its place.
    Image,
    /// The listing of this process's descriptors.
    Listing,
    /// The channel of the escalation service.
    Channel,
    /// The handle through which the loader duplicates descriptors.
    ViaDup,
    /// The handle through which the loader maps memory.
    Memory,
}

/// The handles that a replacement holds.
#[derive(Clone, Copy, Debug, PartialEq, Eq, Structural)]
pub struct Handles {
    pub image: bool,
    pub listing: bool,
    pub channel: bool,
    pub via_dup: bool,
    pub memory: bool,
}

impl Handles {
    /// No handle.
    pub open spec fn spec_none() -> Handles {
        Handles { image: false, listing: false, channel: false, via_dup: false, memory: false }
    }

    /// The same handles, with `handle` held or not as `held` says.
    pub open spec fn spec_with(self, handle: Handle, held: bool) -> Handles {
        match handle {
            Handle::Image => Handles { image: held, ..self },
            Handle::Listing => Handles { listing: held, ..self },
            Handle::Channel => Handles { channel: held, ..self },
            Handle::ViaDup => Handles { via_dup: held, ..self },
            Handle::Memory => Handles { memory: held, ..self },
        }
    }

    /// The handle to release first: the one that is opened last.
    pub open spec fn spec_last(self) -> Option<Handle> {
        if self.memory {
            Some(Handle::Memory)
        } else if self.via_dup {
            Some(Handle::ViaDup)
        } else if self.channel {
            Some(Handle::Channel)
        } else if self.listing {
            Some(Handle::Listing)
        } else if self.image {
            Some(Handle::Image)
        } else {
            None
        }
    }

    /// No handle.
    pub fn none() -> (handles: Handles)
        ensures
            handles == Handles::spec_none(),
    {
        Handles { image: false, listing: false, channel: false, via_dup: false, memory: false }
    }

    /// The same handles, with `handle` held or not as `held` says.
    pub fn with(self, handle: Handle, held: bool) -> (handles: Handles)
        ensures
            handles == self.spec_with(handle, held),
    {
        match handle {
            Handle::Image => Handles { image: held, ..self },
            Handle::Listing => Handles { listing: held, ..self },
            Handle::Channel => Handles { channel: held, ..self },
            Handle::ViaDup => Handles { via_dup: held, ..self },
            Handle::Memory => Handles { memory: held, ..self },
        }
    }

    /// The handle to release first, if any is held.
    pub fn last(self) -> (handle: Option<Handle>)
        ensures
            handle == self.spec_last(),
    {
        if self.memory {
            Some(Handle::Memory)
        } else if self.via_dup {
            Some(Handle::ViaDup)
        } else if self.channel {
            Some(Handle::Channel)
        } else if self.listing {
            Some(Handle::Listing)
        } else if self.image {
            Some(Handle::Image)
        } else {
            None
        }
    }
}

/// What a replacement is heading for.
#[derive(Clone, Copy, Debug, PartialEq, Eq, Structural)]
pub enum Goal {
    /// The new image.
    Replace,
    /// The return of this error, once every handle is released.
    Fail(ExecError),
    /// A new beginning on the interpreter that the loader named, once every
    /// handle is released.
    Restart,
}

/// What the caller of [`execve`] has to do next. Each action but the last two
/// is answered with one [`ExecEvent`].
#[derive(Clone, Copy, Debug, PartialEq, Eq, Structural)]
pub enum ExecAction {
    /// Open `path` read-only and without close-on-exec: it is the image file from now on.
    OpenImage,
    /// Ask for the image file's mode, owner and group.
    Stat,
    /// Ask for the caller's user identifier.
    GetUid,
    /// Ask for the caller's group identifier.
    GetGid,
    /// Read the first two bytes of the image file, or fewer where it ends before.
    /// This is asked of the file to run, and of the interpreter that a script names.
    ReadMarker,
    /// Read on in the image file, up to and including the first newline or up to its end.
    ReadInterpreter,
    /// Open the first argument read-only. Where that succeeds, the script is
    /// released and the file just opened is the image file from now on.
    OpenInterpreter,
    /// Set the image file's read position back to its start.
    Rewind,
    /// Take a copy of the current working directory.
    GetCwd,
    /// Open the listing of this process's descriptors.
    OpenFileTable,
    /// Read the next line of the listing.
    ReadDescriptor,
    /// Ask for the flags of this descriptor.
    GetFlags(usize),
    /// Close this descriptor.
    Close(usize),
    /// Release this handle.
    Release(Handle),
    /// Open the channel of the escalation service, write-only.
    OpenEscalate,
    /// Write `path` to the channel. What is to be written for this and
    /// the next three actions is [`ExecRequest::payload`].
    WritePath,
    /// Write the flattened arguments to the channel.
    WriteArgs,
    /// Write the flattened environment to the channel.
    WriteEnvs,
    /// Write the working directory to the channel.
    WriteCwd,
    /// Close the channel: this hands the process over to the service.
    Commit,
    /// Open the handle through which the loader duplicates descriptors.
    OpenViaDup,
    /// Open the handle through which the loader maps memory.
    OpenMemory,
    /// Hand the image file and the duplication handle to the loader, with the
    /// path, the arguments, the environment, their size and the working
    /// directory. The loader keeps both handles, unless it asks for an
    /// interpreter: then it gives them back.
    Load,
    /// Release the handle that the loader returned: this switches to the
    /// address space it has built.
    Switch,
    /// Return this error. Every handle is released by now.
    Fail(ExecError),
    /// The new image has taken over; nothing is left to do.
    Replaced,
}

/// What came of the action that was asked for.
#[derive(Clone, Debug)]
pub enum ExecEvent {
    /// It was done and there is nothing to report.
    Done,
    /// It failed with this error number.
    Failed(i32),
    /// The image file's mode, owner and group.
    Stat { st_mode: u16, st_uid: u32, st_gid: u32 },
    /// The identifier that was asked for.
    Id(usize),
    /// The bytes that were read or copied.
    Data(Vec<u8>),
    /// The listing has no further line.
    Eof,
    /// The flags of the descriptor.
    Flags(usize),
    /// The loader wants the image run by the interpreter at this path, and has
    /// left an override for the next attempt.
    Interp(Vec<u8>),
}

/// One replacement attempt: what it was asked for, what it has learnt so
/// far, and the action it is waiting on.
#[derive(Clone, Debug)]
pub struct ExecRequest {
    /// The action whose outcome is awaited.
    pub pending: ExecAction,
    /// What the attempt is heading for.
    pub goal: Goal,
    /// The handles that are open on behalf of the attempt.
    pub held: Handles,
    /// The file to run, without a NUL.
    pub path: Vec<u8>,
    /// The arguments, the interpreter first where the file is a script.
    pub args: Vec<Vec<u8>>,
    /// The environment.
    pub envs: Vec<Vec<u8>>,
    /// The size to hand on with arguments and environment.
    pub total_args_envs_size: usize,
    /// The strings came gathered, with their size.
    pub parsed: bool,
    /// An earlier attempt left an override with the caller, to be handed to the loader.
    pub interp_override: bool,
    /// Who asks, and whose file it is.
    pub credentials: CredentialContext,
    /// The working directory at the time of the attempt.
    pub cwd: Vec<u8>,
    /// The file to run opened with the script marker.
    pub is_interpreted: bool,
}

/// An [`ExecRequest`] as plain values.
pub struct ExecRequestView {
    pub pending: ExecAction,
    pub goal: Goal,
    pub held: Handles,
    pub path: Seq<u8>,
    pub args: Seq<Seq<u8>>,
    pub envs: Seq<Seq<u8>>,
    pub total_args_envs_size: usize,
    pub parsed: bool,
    pub interp_override: bool,
    pub credentials: CredentialContext,
    pub cwd: Seq<u8>,
    pub is_interpreted: bool,
}

impl View for ExecRequest {
    type V = ExecRequestView;

    open spec fn view(&self) -> ExecRequestView {
        ExecRequestView {
            pending: self.pending,
            goal: self.goal,
            held: self.held,
            path: self.path@,
            args: self.args.deep_view(),
            envs: self.envs.deep_view(),
            total_args_envs_size: self.total_args_envs_size,
            parsed: self.parsed,
            interp_override: self.interp_override,
            credentials: self.credentials,
            cwd: self.cwd@,
            is_interpreted: self.is_interpreted,
        }
    }
}

impl ExecRequestView {
    /// The same request, waiting on `next`.
    pub open spec fn awaiting(self, next: ExecAction) -> ExecRequestView {
        ExecRequestView { pending: next, ..self }
    }

    /// The same request, with `handle` opened and waiting on `next`.
    pub open spec fn opened(self, handle: Handle, next: ExecAction) -> ExecRequestView {
        ExecRequestView { pending: next, held: self.held.spec_with(handle, true), ..self }
    }

    /// The request on its way out: the handle that was opened last is
    /// released next; once none is left, the error of the goal is returned, or
    /// the attempt begins anew.
    pub open spec fn unwind(self) -> ExecRequestView {
        match self.held.spec_last() {
            Some(handle) => self.awaiting(ExecAction::Release(handle)),
            None => match self.goal {
                Goal::Fail(error) => self.awaiting(ExecAction::Fail(error)),
                Goal::Restart => ExecRequestView {
                    pending: ExecAction::OpenImage,
                    goal: Goal::Replace,
                    ..self
                },
                Goal::Replace => self,
            },
        }
    }

    /// The same request, given up with `error`: what it holds is released,
    /// then the error is returned.
    pub open spec fn fail(self, error: ExecError) -> ExecRequestView {
        ExecRequestView { goal: Goal::Fail(error), ..self }.unwind()
    }

    /// The request after `handle` was released. On the way to the new image
    /// the listing is released when the clean-up is over, the image file
    /// before the escalation service is called, and the memory handle before
    /// the address space is switched.
    pub open spec fn released(self, handle: Handle) -> ExecRequestView {
        let rest = ExecRequestView { held: self.held.spec_with(handle, false), ..self };
        match self.goal {
            Goal::Replace => match handle {
                Handle::Listing => rest.awaiting(rest.backend()),
                Handle::Image => rest.awaiting(ExecAction::OpenEscalate),
                Handle::Memory => rest.awaiting(ExecAction::Switch),
                _ => rest,
            },
            _ => rest.unwind(),
        }
    }

    /// The bytes that the pending action writes to the escalation channel:
    /// the path without a NUL, the arguments each followed by a NUL, the
    /// environment in the same way, the working directory. Nothing for an
    /// action that writes nothing.
    pub open spec fn payload(self) -> Option<Seq<u8>> {
        match self.pending {
            ExecAction::WritePath => Some(self.path),
            ExecAction::WriteArgs => Some(flat_nul(self.args)),
            ExecAction::WriteEnvs => Some(flat_nul(self.envs)),
            ExecAction::WriteCwd => Some(self.cwd),
            _ => None,
        }
    }

    /// The escalation service takes the image: the file asks for other
    /// credentials and is no script.
    pub open spec fn uses_escalation(self) -> bool {
        !self.is_interpreted && self.credentials.spec_wants_setugid()
    }

    /// The first action of the backend that takes the image.
    pub open spec fn backend(self) -> ExecAction {
        if self.uses_escalation() {
            ExecAction::Release(Handle::Image)
        } else {
            ExecAction::OpenViaDup
        }
    }

    /// What the interpreter adds to the size: its bytes, and its NUL where
    /// the size is worked out here.
    pub open spec fn interpreter_size(self, interpreter: Seq<u8>) -> nat {
        if self.parsed {
            interpreter.len()
        } else {
            interpreter.len() + 1
        }
    }

    /// The request with `interpreter` as its first argument.
    pub open spec fn with_interpreter(self, interpreter: Seq<u8>) -> ExecRequestView {
        ExecRequestView {
            args: self.args.insert(0, interpreter),
            total_args_envs_size: (self.total_args_envs_size + self.interpreter_size(
                interpreter,
            )) as usize,
            ..self
        }
    }

    /// The request as it turns to the interpreter that the loader named: the
    /// handles it was given back are released, then it begins anew with the
    /// arguments, the environment and the size as they stand.
    pub open spec fn restarted(self, path: Seq<u8>) -> ExecRequestView {
        ExecRequestView {
            goal: Goal::Restart,
            path: path,
            parsed: true,
            interp_override: true,
            is_interpreted: false,
            ..self
        }.unwind()
    }

    /// `event` can be the outcome of the pending action, and the sizes it
    /// leads to fit a `usize`.
    pub open spec fn accepts(self, event: ExecEvent) -> bool {
        match self.pending {
            ExecAction::OpenImage
            | ExecAction::OpenInterpreter
            | ExecAction::Rewind
            | ExecAction::OpenFileTable
            | ExecAction::Close(_)
            | ExecAction::Release(_)
            | ExecAction::OpenEscalate
            | ExecAction::WritePath
            | ExecAction::WriteArgs
            | ExecAction::WriteEnvs
            | ExecAction::WriteCwd
            | ExecAction::Commit
            | ExecAction::OpenViaDup
            | ExecAction::OpenMemory => event is Done || event is Failed,
            ExecAction::Switch => event is Done,
            ExecAction::Stat => event is Stat || event is Failed,
            ExecAction::GetUid | ExecAction::GetGid => event is Id || event is Failed,
            ExecAction::GetCwd | ExecAction::ReadMarker => event is Data || event is Failed,
            ExecAction::ReadInterpreter => match event {
                ExecEvent::Data(line) => match spec_interpreter_path(line@) {
                    Ok(interpreter) => self.total_args_envs_size + self.interpreter_size(
                        interpreter,
                    ) <= usize::MAX,
                    Err(_) => true,
                },
                ExecEvent::Failed(_) => true,
                _ => false,
            },
            ExecAction::ReadDescriptor => event is Data || event is Eof || event is Failed,
            ExecAction::GetFlags(_) => event is Flags || event is Failed,
            ExecAction::Load => event is Done || event is Interp || event is Failed,
            ExecAction::Fail(_) | ExecAction::Replaced => false,
        }
    }

    /// The request after `event` has answered the pending action.
    pub open spec fn step(self, event: ExecEvent) -> ExecRequestView {
        match self.pending {
            ExecAction::OpenImage
            | ExecAction::Stat
            | ExecAction::GetUid
            | ExecAction::GetGid
            | ExecAction::ReadMarker
            | ExecAction::ReadInterpreter
            | ExecAction::OpenInterpreter
            | ExecAction::Rewind
            | ExecAction::GetCwd => self.resolve_step(event),
            ExecAction::OpenFileTable
            | ExecAction::ReadDescriptor
            | ExecAction::GetFlags(_)
            | ExecAction::Close(_) => self.cleanup_step(event),
            ExecAction::Release(handle) => match event {
                ExecEvent::Done | ExecEvent::Failed(_) => self.released(handle),
                _ => self,
            },
            ExecAction::OpenEscalate
            | ExecAction::WritePath
            | ExecAction::WriteArgs
            | ExecAction::WriteEnvs
            | ExecAction::WriteCwd
            | ExecAction::Commit => self.escalate_step(event),
            ExecAction::OpenViaDup
            | ExecAction::OpenMemory
            | ExecAction::Load
            | ExecAction::Switch => self.load_step(event),
            ExecAction::Fail(_) | ExecAction::Replaced => self,
        }
    }

    /// The part of [`Self::step`] that resolves the file: it is opened, the
    /// caller's right to execute it is checked, and a script is traded for
    /// its interpreter, once: an interpreter that is a script itself is a
    /// format error. Then the working directory is noted.
    pub open spec fn resolve_step(self, event: ExecEvent) -> ExecRequestView {
        match self.pending {
            ExecAction::OpenImage => match event {
                ExecEvent::Done => self.opened(Handle::Image, ExecAction::Stat),
                ExecEvent::Failed(_) => self.fail(ExecError::NoSuchFile),
                _ => self,
            },
            ExecAction::Stat => match event {
                ExecEvent::Stat { st_mode, st_uid, st_gid } => ExecRequestView {
                    pending: ExecAction::GetUid,
                    credentials: CredentialContext { st_mode, st_uid, st_gid, ..self.credentials },
                    ..self
                },
                ExecEvent::Failed(errno) => self.fail(ExecError::Os(errno)),
                _ => self,
            },
            ExecAction::GetUid => match event {
                ExecEvent::Id(uid) => ExecRequestView {
                    pending: ExecAction::GetGid,
                    credentials: CredentialContext { uid, ..self.credentials },
                    ..self
                },
                ExecEvent::Failed(errno) => self.fail(ExecError::Os(errno)),
                _ => self,
            },
            ExecAction::GetGid => match event {
                ExecEvent::Id(gid) => {
                    let known = ExecRequestView {
                        credentials: CredentialContext { gid, ..self.credentials },
                        ..self
                    };
                    if known.credentials.spec_may_execute() {
                        known.awaiting(ExecAction::ReadMarker)
                    } else {
                        known.fail(ExecError::PermissionDenied)
                    }
                },
                ExecEvent::Failed(errno) => self.fail(ExecError::Os(errno)),
                _ => self,
            },
            ExecAction::ReadMarker => match event {
                ExecEvent::Data(head) => if !spec_is_shebang(head@) {
                    self.awaiting(ExecAction::Rewind)
                } else if self.is_interpreted {
                    self.fail(ExecError::FormatError)
                } else {
                    ExecRequestView {
                        pending: ExecAction::ReadInterpreter,
                        is_interpreted: true,
                        ..self
                    }
                },
                ExecEvent::Failed(_) => self.fail(ExecError::FormatError),
                _ => self,
            },
            ExecAction::ReadInterpreter => match event {
                ExecEvent::Data(line) => match spec_interpreter_path(line@) {
                    Ok(interpreter) => self.with_interpreter(interpreter).awaiting(
                        ExecAction::OpenInterpreter,
                    ),
                    Err(error) => self.fail(error),
                },
                ExecEvent::Failed(_) => self.fail(ExecError::Io),
                _ => self,
            },
            ExecAction::OpenInterpreter => match event {
                ExecEvent::Done => self.awaiting(ExecAction::ReadMarker),
                ExecEvent::Failed(_) => self.fail(ExecError::NoSuchFile),
                _ => self,
            },
            ExecAction::Rewind => match event {
                ExecEvent::Done => self.awaiting(ExecAction::GetCwd),
                ExecEvent::Failed(_) => self.fail(ExecError::Io),
                _ => self,
            },
            ExecAction::GetCwd => match event {
                ExecEvent::Data(cwd) => ExecRequestView {
                    pending: ExecAction::OpenFileTable,
                    cwd: cwd@,
                    ..self
                },
                ExecEvent::Failed(_) => ExecRequestView {
                    pending: ExecAction::OpenFileTable,
                    cwd: Seq::empty(),
                    ..self
                },
                _ => self,
            },
            _ => self,
        }
    }

    /// The part of [`Self::step`] that closes the descriptors that are not
    /// to outlive the old image.
    pub open spec fn cleanup_step(self, event: ExecEvent) -> ExecRequestView {
        match self.pending {
            ExecAction::OpenFileTable => match event {
                ExecEvent::Done => self.opened(Handle::Listing, ExecAction::ReadDescriptor),
                ExecEvent::Failed(errno) => self.fail(ExecError::Os(errno)),
                _ => self,
            },
            ExecAction::ReadDescriptor => match event {
                ExecEvent::Data(line) => match spec_parse_descriptor(line@) {
                    Some(fd) => self.awaiting(ExecAction::GetFlags(fd)),
                    None => self,
                },
                ExecEvent::Eof | ExecEvent::Failed(_) => self.awaiting(
                    ExecAction::Release(Handle::Listing),
                ),
                _ => self,
            },
            ExecAction::GetFlags(fd) => match event {
                ExecEvent::Flags(flags) => if spec_is_cloexec(flags) {
                    self.awaiting(ExecAction::Close(fd))
                } else {
                    self.awaiting(ExecAction::ReadDescriptor)
                },
                ExecEvent::Failed(errno) => self.fail(ExecError::Os(errno)),
                _ => self,
            },
            ExecAction::Close(_) => match event {
                ExecEvent::Done | ExecEvent::Failed(_) => self.awaiting(ExecAction::ReadDescriptor),
                _ => self,
            },
            _ => self,
        }
    }

    /// The part of [`Self::step`] that hands the image to the escalation
    /// service. The channel that cannot be opened, and each write that
    /// fails, ends the attempt with the error number of the failure.
    pub open spec fn escalate_step(self, event: ExecEvent) -> ExecRequestView {
        match self.pending {
            ExecAction::OpenEscalate => match event {
                ExecEvent::Done => self.opened(Handle::Channel, ExecAction::WritePath),
                ExecEvent::Failed(errno) => self.fail(ExecError::Os(errno)),
                _ => self,
            },
            ExecAction::WritePath => match event {
                ExecEvent::Done => self.awaiting(ExecAction::WriteArgs),
                ExecEvent::Failed(errno) => self.fail(ExecError::Os(errno)),
                _ => self,
            },
            ExecAction::WriteArgs => match event {
                ExecEvent::Done => self.awaiting(ExecAction::WriteEnvs),
                ExecEvent::Failed(errno) => self.fail(ExecError::Os(errno)),
                _ => self,
            },
            ExecAction::WriteEnvs => match event {
                ExecEvent::Done => self.awaiting(ExecAction::WriteCwd),
                ExecEvent::Failed(errno) => self.fail(ExecError::Os(errno)),
                _ => self,
            },
            ExecAction::WriteCwd => match event {
                ExecEvent::Done => self.awaiting(ExecAction::Commit),
                ExecEvent::Failed(errno) => self.fail(ExecError::Os(errno)),
                _ => self,
            },
            ExecAction::Commit => {
                let closed = ExecRequestView {
                    held: self.held.spec_with(Handle::Channel, false),
                    ..self
                };
                match event {
                    ExecEvent::Done => closed.awaiting(ExecAction::Replaced),
                    ExecEvent::Failed(errno) => closed.fail(ExecError::Os(errno)),
                    _ => self,
                }
            },
            _ => self,
        }
    }

    /// The request once the loader has taken the image file and the
    /// duplication handle for good.
    pub open spec fn taken_by_loader(self) -> ExecRequestView {
        ExecRequestView {
            held: self.held.spec_with(Handle::Image, false).spec_with(Handle::ViaDup, false),
            ..self
        }
    }

    /// The part of [`Self::step`] that hands the image to the loader.
    pub open spec fn load_step(self, event: ExecEvent) -> ExecRequestView {
        match self.pending {
            ExecAction::OpenViaDup => match event {
                ExecEvent::Done => self.opened(Handle::ViaDup, ExecAction::OpenMemory),
                ExecEvent::Failed(errno) => self.fail(ExecError::Os(errno)),
                _ => self,
            },
            ExecAction::OpenMemory => match event {
                ExecEvent::Done => self.opened(Handle::Memory, ExecAction::Load),
                ExecEvent::Failed(errno) => self.fail(ExecError::Os(errno)),
                _ => self,
            },
            ExecAction::Load => match event {
                ExecEvent::Done => self.taken_by_loader().awaiting(
                    ExecAction::Release(Handle::Memory),
                ),
                ExecEvent::Interp(path) => if is_c_string(path@) {
                    self.restarted(path@.drop_last())
                } else {
                    self.fail(ExecError::FormatError)
                },
                ExecEvent::Failed(errno) => self.taken_by_loader().fail(ExecError::Os(errno)),
                _ => self,
            },
            ExecAction::Switch => match event {
                ExecEvent::Done => self.awaiting(ExecAction::Replaced),
                _ => self,
            },
            _ => self,
        }
    }
}

impl ExecRequest {
    /// A request as it begins: nothing is known of the file yet, and the
    /// first thing to do is to open it.
    pub open spec fn spec_new(path: Seq<u8>, arg_env: ArgEnv, interp_override: bool)
        -> ExecRequestView {
        ExecRequestView {
            pending: ExecAction::OpenImage,
            goal: Goal::Replace,
            held: Handles::spec_none(),
            path: path,
            args: match arg_env {
                ArgEnv::C { argv, .. } => argv.deep_view(),
                ArgEnv::Parsed { args, .. } => args.deep_view(),
            },
            envs: match arg_env {
                ArgEnv::C { envp, .. } => envp.deep_view(),
                ArgEnv::Parsed { envs, .. } => envs.deep_view(),
            },
            total_args_envs_size: arg_env.spec_size() as usize,
            parsed: arg_env is Parsed,
            interp_override: interp_override,
            credentials: CredentialContext { uid: 0, gid: 0, st_uid: 0, st_gid: 0, st_mode: 0 },
            cwd: Seq::empty(),
            is_interpreted: false,
        }
    }

    /// Begins the replacement of the running image by the file at `path`.
    /// `interp_override` says that the caller holds an override from an
    /// earlier attempt.
    pub fn new(path: Vec<u8>, arg_env: ArgEnv, interp_override: bool) -> (request: ExecRequest)
        requires
            arg_env.spec_size() <= usize::MAX,
        ensures
            request@ == Self::spec_new(path@, arg_env, interp_override),
    {
        let size: usize = arg_env.checked_size().unwrap();
        let credentials = CredentialContext { uid: 0, gid: 0, st_uid: 0, st_gid: 0, st_mode: 0 };
        match arg_env {
            ArgEnv::C { argv, envp } => ExecRequest {
                pending: ExecAction::OpenImage,
                goal: Goal::Replace,
                held: Handles::none(),
                path,
                args: argv,
                envs: envp,
                total_args_envs_size: size,
                parsed: false,
                interp_override,
                credentials,
                cwd: Vec::new(),
                is_interpreted: false,
            },
            ArgEnv::Parsed { args, envs, .. } => ExecRequest {
                pending: ExecAction::OpenImage,
                goal: Goal::Replace,
                held: Handles::none(),
                path,
                args,
                envs,
                total_args_envs_size: size,
                parsed: true,
                interp_override,
                credentials,
                cwd: Vec::new(),
                is_interpreted: false,
            },
        }
    }

    /// The bytes to write to the escalation channel for the pending action,
    /// or `None` where the pending action writes nothing.
    pub fn payload(&self) -> (data: Option<Vec<u8>>)
        ensures
            match data {
                Some(bytes) => self@.payload() == Some(bytes@),
                None => self@.payload() is None,
            },
    {
        match self.pending {
            ExecAction::WritePath => Some(slice_to_vec(self.path.as_slice())),
            ExecAction::WriteArgs => Some(flatten_with_nul(&self.args)),
            ExecAction::WriteEnvs => Some(flatten_with_nul(&self.envs)),
            ExecAction::WriteCwd => Some(slice_to_vec(self.cwd.as_slice())),
            _ => None,
        }
    }

    /// Whether `event` may be handed to [`execve`] now.
    pub fn accepts(&self, event: &ExecEvent) -> (ok: bool)
        ensures
            ok == self@.accepts(*event),
    {
        let plain: bool = matches!(event, ExecEvent::Done | ExecEvent::Failed(_));
        match self.pending {
            ExecAction::OpenImage
            | ExecAction::OpenInterpreter
            | ExecAction::Rewind
            | ExecAction::OpenFileTable
            | ExecAction::Close(_)
            | ExecAction::Release(_)
            | ExecAction::OpenEscalate
            | ExecAction::WritePath
            | ExecAction::WriteArgs
            | ExecAction::WriteEnvs
            | ExecAction::WriteCwd
            | ExecAction::Commit
            | ExecAction::OpenViaDup
            | ExecAction::OpenMemory => plain,
            ExecAction::Switch => matches!(event, ExecEvent::Done),
            ExecAction::Stat => matches!(event, ExecEvent::Stat { .. } | ExecEvent::Failed(_)),
            ExecAction::GetUid | ExecAction::GetGid => matches!(
                event,
                ExecEvent::Id(_) | ExecEvent::Failed(_)
            ),
            ExecAction::GetCwd | ExecAction::ReadMarker => matches!(
                event,
                ExecEvent::Data(_) | ExecEvent::Failed(_)
            ),
            ExecAction::ReadInterpreter => match event {
                ExecEvent::Data(line) => match interpreter_path(line.as_slice()) {
                    Ok(interpreter) => {
                        let extra: usize = if self.parsed {
                            0
                        } else {
                            1
                        };
                        match self.total_args_envs_size.checked_add(interpreter.len()) {
                            Some(sum) => sum.checked_add(extra).is_some(),
                            None => false,
                        }
                    },
                    Err(_) => true,
                },
                ExecEvent::Failed(_) => true,
                _ => false,
            },
            ExecAction::ReadDescriptor => matches!(
                event,
                ExecEvent::Data(_) | ExecEvent::Eof | ExecEvent::Failed(_)
            ),
            ExecAction::GetFlags(_) => matches!(event, ExecEvent::Flags(_) | ExecEvent::Failed(_)),
            ExecAction::Load => matches!(
                event,
                ExecEvent::Done | ExecEvent::Interp(_) | ExecEvent::Failed(_)
            ),
            ExecAction::Fail(_) | ExecAction::Replaced => false,
        }
    }

    /// Goes on to `next`.
    fn await_action(&mut self, next: ExecAction) -> (action: ExecAction)
        ensures
            final(self)@ == old(self)@.awaiting(next),
            action == next,
    {
        self.pending = next;
        next
    }

    /// Notes that `handle` is open and goes on to `next`.
    fn open(&mut self, handle: Handle, next: ExecAction) -> (action: ExecAction)
        ensures
            final(self)@ == old(self)@.opened(handle, next),
            action == next,
    {
        self.held = self.held.with(handle, true);
        self.pending = next;
        next
    }

    /// Releases what is held, one handle at a time, and ends as the goal says.
    fn unwind(&mut self) -> (action: ExecAction)
        ensures
            final(self)@ == old(self)@.unwind(),
            action == final(self)@.pending,
    {
        match self.held.last() {
            Some(handle) => {
                self.pending = ExecAction::Release(handle);
            },
            None => match self.goal {
                Goal::Fail(error) => {
                    self.pending = ExecAction::Fail(error);
                },
                Goal::Restart => {
                    self.pending = ExecAction::OpenImage;
                    self.goal = Goal::Replace;
                },
                Goal::Replace => {},
            },
        }
        self.pending
    }

    /// Gives up with `error`.
    fn fail(&mut self, error: ExecError) -> (action: ExecAction)
        ensures
            final(self)@ == old(self)@.fail(error),
            action == final(self)@.pending,
    {
        self.goal = Goal::Fail(error);
        self.unwind()
    }

    /// Notes that `handle` is released, and goes on.
    fn released(&mut self, handle: Handle) -> (action: ExecAction)
        ensures
            final(self)@ == old(self)@.released(handle),
            action == final(self)@.pending,
    {
        self.held = self.held.with(handle, false);
        match self.goal {
            Goal::Replace => match handle {
                Handle::Listing => {
                    self.pending = self.backend();
                },
                Handle::Image => {
                    self.pending = ExecAction::OpenEscalate;
                },
                Handle::Memory => {
                    self.pending = ExecAction::Switch;
                },
                _ => {},
            },
            _ => {
                return self.unwind();
            },
        }
        self.pending
    }

    /// Puts `interpreter` in front of the arguments and adds it to the size.
    fn push_interpreter(&mut self, interpreter: Vec<u8>)
        requires
            old(self).total_args_envs_size + old(self)@.interpreter_size(interpreter@)
                <= usize::MAX,
        ensures
            final(self)@ == old(self)@.with_interpreter(interpreter@),
    {
        let extra: usize = if self.parsed {
            0
        } else {
            1
        };
        self.total_args_envs_size = self.total_args_envs_size + interpreter.len() + extra;
        let ghost before = self.args;
        let ghost first = interpreter;
        self.args.insert(0, interpreter);
        proof {
            let after = self.args;
            assert(after@ == before@.insert(0, first));
            assert(first.deep_view() =~= first@);
            assert forall|i: int| 0 <= i < after@.len() implies after.deep_view()[i]
                == before.deep_view().insert(0, first@)[i] by {
                if i > 0 {
                    assert(after@[i] == before@[i - 1]);
                }
            }
            assert(after.deep_view() =~= before.deep_view().insert(0, first@));
        }
    }

    /// The first action of the backend that takes the image.
    fn backend(&self) -> (first: ExecAction)
        ensures
            first == self@.backend(),
    {
        if !self.is_interpreted && self.credentials.wants_setugid() {
            ExecAction::Release(Handle::Image)
        } else {
            ExecAction::OpenViaDup
        }
    }
}

/// One step of a replacement: takes the outcome of the action that `request`
/// was waiting on, and says what to do next.
///
/// The caller starts with [`ExecRequest::new`] and the action `OpenImage`,
/// performs each action it is given and hands back what came of it, until the
/// action is `Fail` or `Replaced`.
pub fn execve(request: &mut ExecRequest, event: ExecEvent) -> (next: ExecAction)
    requires
        old(request)@.accepts(event),
    ensures
        final(request)@ == old(request)@.step(event),
        next == final(request)@.pending,
{
    match request.pending {
        ExecAction::OpenImage
        | ExecAction::Stat
        | ExecAction::GetUid
        | ExecAction::GetGid
        | ExecAction::ReadMarker
        | ExecAction::ReadInterpreter
        | ExecAction::OpenInterpreter
        | ExecAction::Rewind
        | ExecAction::GetCwd => resolve(request, event),
        ExecAction::OpenFileTable
        | ExecAction::ReadDescriptor
        | ExecAction::GetFlags(_)
        | ExecAction::Close(_) => clean_up(request, event),
        ExecAction::Release(handle) => request.released(handle),
        ExecAction::OpenEscalate
        | ExecAction::WritePath
        | ExecAction::WriteArgs
        | ExecAction::WriteEnvs
        | ExecAction::WriteCwd
        | ExecAction::Commit => escalate(request, event),
        ExecAction::OpenViaDup
        | ExecAction::OpenMemory
        | ExecAction::Load
        | ExecAction::Switch => fexec_impl(request, event),
        ExecAction::Fail(_) | ExecAction::Replaced => request.pending,
    }
}

/// The steps of [`execve`] that resolve the file.
fn resolve(request: &mut ExecRequest, event: ExecEvent) -> (next: ExecAction)
    requires
        old(request)@.accepts(event),
    ensures
        final(request)@ == old(request)@.resolve_step(event),
        next == final(request)@.pending,
{
    match request.pending {
        ExecAction::OpenImage => match event {
            ExecEvent::Done => request.open(Handle::Image, ExecAction::Stat),
            _ => request.fail(ExecError::NoSuchFile),
        },
        ExecAction::Stat => match event {
            ExecEvent::Stat { st_mode, st_uid, st_gid } => {
                request.credentials.st_mode = st_mode;
                request.credentials.st_uid = st_uid;
                request.credentials.st_gid = st_gid;
                request.await_action(ExecAction::GetUid)
            },
            ExecEvent::Failed(errno) => request.fail(ExecError::Os(errno)),
            _ => request.pending,
        },
        ExecAction::GetUid => match event {
            ExecEvent::Id(uid) => {
                request.credentials.uid = uid;
                request.await_action(ExecAction::GetGid)
            },
            ExecEvent::Failed(errno) => request.fail(ExecError::Os(errno)),
            _ => request.pending,
        },
        ExecAction::GetGid => match event {
            ExecEvent::Id(gid) => {
                request.credentials.gid = gid;
                if request.credentials.may_execute() {
                    request.await_action(ExecAction::ReadMarker)
                } else {
                    request.fail(ExecError::PermissionDenied)
                }
            },
            ExecEvent::Failed(errno) => request.fail(ExecError::Os(errno)),
            _ => request.pending,
        },
        ExecAction::ReadMarker => match event {
            ExecEvent::Data(head) => {
                if !is_shebang(head.as_slice()) {
                    request.await_action(ExecAction::Rewind)
                } else if request.is_interpreted {
                    request.fail(ExecError::FormatError)
                } else {
                    request.is_interpreted = true;
                    request.await_action(ExecAction::ReadInterpreter)
                }
            },
            _ => request.fail(ExecError::FormatError),
        },
        ExecAction::ReadInterpreter => match event {
            ExecEvent::Data(line) => match interpreter_path(line.as_slice()) {
                Ok(interpreter) => {
                    request.push_interpreter(interpreter);
                    request.await_action(ExecAction::OpenInterpreter)
                },
                Err(error) => request.fail(error),
            },
            _ => request.fail(ExecError::Io),
        },
        ExecAction::OpenInterpreter => match event {
            ExecEvent::Done => request.await_action(ExecAction::ReadMarker),
            _ => request.fail(ExecError::NoSuchFile),
        },
        ExecAction::Rewind => match event {
            ExecEvent::Done => request.await_action(ExecAction::GetCwd),
            _ => request.fail(ExecError::Io),
        },
        ExecAction::GetCwd => match event {
            ExecEvent::Data(cwd) => {
                request.cwd = cwd;
                request.await_action(ExecAction::OpenFileTable)
            },
            _ => {
                request.cwd = Vec::new();
                request.await_action(ExecAction::OpenFileTable)
            },
        },
        _ => request.pending,
    }
}

/// The steps of [`execve`] that close the descriptors flagged close-on-exec.
fn clean_up(request: &mut ExecRequest, event: ExecEvent) -> (next: ExecAction)
    requires
        old(request)@.accepts(event),
    ensures
        final(request)@ == old(request)@.cleanup_step(event),
        next == final(request)@.pending,
{
    match request.pending {
        ExecAction::OpenFileTable => match event {
            ExecEvent::Done => request.open(Handle::Listing, ExecAction::ReadDescriptor),
            ExecEvent::Failed(errno) => request.fail(ExecError::Os(errno)),
            _ => request.pending,
        },
        ExecAction::ReadDescriptor => match event {
            ExecEvent::Data(line) => match parse_descriptor(line.as_slice()) {
                Some(fd) => request.await_action(ExecAction::GetFlags(fd)),
                None => request.pending,
            },
            _ => request.await_action(ExecAction::Release(Handle::Listing)),
        },
        ExecAction::GetFlags(fd) => match event {
            ExecEvent::Flags(flags) => if is_cloexec(flags) {
                request.await_action(ExecAction::Close(fd))
            } else {
                request.await_action(ExecAction::ReadDescriptor)
            },
            ExecEvent::Failed(errno) => request.fail(ExecError::Os(errno)),
            _ => request.pending,
        },
        ExecAction::Close(_) => request.await_action(ExecAction::ReadDescriptor),
        _ => request.pending,
    }
}

/// The steps of [`execve`] that hand the image to the escalation service.
fn escalate(request: &mut ExecRequest, event: ExecEvent) -> (next: ExecAction)
    requires
        old(request)@.accepts(event),
    ensures
        final(request)@ == old(request)@.escalate_step(event),
        next == final(request)@.pending,
{
    match request.pending {
        ExecAction::OpenEscalate => match event {
            ExecEvent::Done => request.open(Handle::Channel, ExecAction::WritePath),
            ExecEvent::Failed(errno) => request.fail(ExecError::Os(errno)),
            _ => request.pending,
        },
        ExecAction::WritePath => match event {
            ExecEvent::Done => request.await_action(ExecAction::WriteArgs),
            ExecEvent::Failed(errno) => request.fail(ExecError::Os(errno)),
            _ => request.pending,
        },
        ExecAction::WriteArgs => match event {
            ExecEvent::Done => request.await_action(ExecAction::WriteEnvs),
            ExecEvent::Failed(errno) => request.fail(ExecError::Os(errno)),
            _ => request.pending,
        },
        ExecAction::WriteEnvs => match event {
            ExecEvent::Done => request.await_action(ExecAction::WriteCwd),
            ExecEvent::Failed(errno) => request.fail(ExecError::Os(errno)),
            _ => request.pending,
        },
        ExecAction::WriteCwd => match event {
            ExecEvent::Done => request.await_action(ExecAction::Commit),
            ExecEvent::Failed(errno) => request.fail(ExecError::Os(errno)),
            _ => request.pending,
        },
        ExecAction::Commit => match event {
            ExecEvent::Done => {
                request.held = request.held.with(Handle::Channel, false);
                request.await_action(ExecAction::Replaced)
            },
            ExecEvent::Failed(errno) => {
                request.held = request.held.with(Handle::Channel, false);
                request.fail(ExecError::Os(errno))
            },
            _ => request.pending,
        },
        _ => request.pending,
    }
}

/// The steps of [`execve`] that hand the image to the loader: two handles
/// are opened for it, then it is given the image, and the address space it
/// has built is switched to. Where it asks for an interpreter, the whole
/// replacement starts over on that file, with the arguments, the environment
/// and the size as they stand.
pub fn fexec_impl(request: &mut ExecRequest, event: ExecEvent) -> (next: ExecAction)
    requires
        old(request)@.accepts(event),
    ensures
        final(request)@ == old(request)@.load_step(event),
        next == final(request)@.pending,
{
    match request.pending {
        ExecAction::OpenViaDup => match event {
            ExecEvent::Done => request.open(Handle::ViaDup, ExecAction::OpenMemory),
            ExecEvent::Failed(errno) => request.fail(ExecError::Os(errno)),
            _ => request.pending,
        },
        ExecAction::OpenMemory => match event {
            ExecEvent::Done => request.open(Handle::Memory, ExecAction::Load),
            ExecEvent::Failed(errno) => request.fail(ExecError::Os(errno)),
            _ => request.pending,
        },
        ExecAction::Load => match event {
            ExecEvent::Done => {
                request.held = request.held.with(Handle::Image, false).with(Handle::ViaDup, false);
                request.await_action(ExecAction::Release(Handle::Memory))
            },
            ExecEvent::Interp(path) => match from_bytes_with_nul(path.as_slice()) {
                Some(body) => {
                    request.path = slice_to_vec(body);
                    request.parsed = true;
                    request.interp_override = true;
                    request.is_interpreted = false;
                    request.goal = Goal::Restart;
                    request.unwind()
                },
                None => request.fail(ExecError::FormatError),
            },
            ExecEvent::Failed(errno) => {
                request.held = request.held.with(Handle::Image, false).with(Handle::ViaDup, false);
                request.fail(ExecError::Os(errno))
            },
            _ => request.pending,
        },
        ExecAction::Switch => request.await_action(ExecAction::Replaced),
        _ => request.pending,
    }
}

} // verus!
