//! What holds of every replacement, whatever the files and the system
//! answer.

use crate::error::ExecError;
use crate::exec::ArgEnv;
use crate::exec::ExecAction;
use crate::exec::ExecEvent;
use crate::exec::ExecRequest;
use crate::exec::ExecRequestView;
use crate::exec::Goal;
use crate::exec::Handle;
use crate::exec::Handles;
use crate::exec::flat_nul;
use crate::exec::lemma_flat_nul_len;
use crate::exec::lemma_total_len_insert_first;
use crate::exec::total_len;
use crate::filetable::spec_is_cloexec;
use crate::filetable::spec_parse_descriptor;
use crate::script::spec_interpreter_path;
use crate::script::spec_is_shebang;
use vstd::prelude::*;

verus! {

impl ExecRequestView {
    /// The handles that are held while `self.pending` is awaited on the way
    /// to the new image.
    pub open spec fn needed(self) -> Handles {
        let none = Handles::spec_none();
        match self.pending {
            ExecAction::OpenImage
            | ExecAction::OpenEscalate
            | ExecAction::Switch
            | ExecAction::Replaced
            | ExecAction::Fail(_) => none,
            ExecAction::Stat
            | ExecAction::GetUid
            | ExecAction::GetGid
            | ExecAction::GetCwd
            | ExecAction::ReadMarker
            | ExecAction::ReadInterpreter
            | ExecAction::OpenInterpreter
            | ExecAction::Rewind
            | ExecAction::OpenFileTable
            | ExecAction::OpenViaDup
            | ExecAction::Release(Handle::Image) => Handles { image: true, ..none },
            ExecAction::ReadDescriptor
            | ExecAction::GetFlags(_)
            | ExecAction::Close(_)
            | ExecAction::Release(Handle::Listing) => Handles { image: true, listing: true, ..none },
            ExecAction::WritePath
            | ExecAction::WriteArgs
            | ExecAction::WriteEnvs
            | ExecAction::WriteCwd
            | ExecAction::Commit
            | ExecAction::Release(Handle::Channel) => Handles { channel: true, ..none },
            ExecAction::OpenMemory | ExecAction::Release(Handle::ViaDup) => Handles {
                image: true,
                via_dup: true,
                ..none
            },
            ExecAction::Load => Handles { image: true, via_dup: true, memory: true, ..none },
            ExecAction::Release(Handle::Memory) => Handles { memory: true, ..none },
        }
    }

    /// The request accounts for its handles. On the way to the new image it
    /// holds exactly what the pending action needs. On the way out it
    /// releases what it still holds, and returns, or begins anew, with
    /// nothing held.
    pub open spec fn tidy(self) -> bool {
        match self.goal {
            Goal::Replace => {
                &&& self.held == self.needed()
                &&& !(self.pending is Fail)
                &&& self.pending != ExecAction::Release(Handle::Channel)
                &&& self.pending != ExecAction::Release(Handle::ViaDup)
            },
            Goal::Fail(error) => match self.pending {
                ExecAction::Release(handle) => self.held.spec_last() == Some(handle),
                ExecAction::Fail(returned) => returned == error && self.held
                    == Handles::spec_none(),
                _ => false,
            },
            Goal::Restart => match self.pending {
                ExecAction::Release(handle) => self.held.spec_last() == Some(handle),
                _ => false,
            },
        }
    }

    /// The escalation service is being called.
    pub open spec fn is_escalating(self) -> bool {
        ||| self.pending == ExecAction::Release(Handle::Image)
        ||| self.pending == ExecAction::OpenEscalate
        ||| self.pending == ExecAction::WritePath
        ||| self.pending == ExecAction::WriteArgs
        ||| self.pending == ExecAction::WriteEnvs
        ||| self.pending == ExecAction::WriteCwd
        ||| self.pending == ExecAction::Commit
    }

    /// The loader is being called.
    pub open spec fn is_loading(self) -> bool {
        ||| self.pending == ExecAction::OpenViaDup
        ||| self.pending == ExecAction::OpenMemory
        ||| self.pending == ExecAction::Load
        ||| self.pending == ExecAction::Release(Handle::Memory)
        ||| self.pending == ExecAction::Switch
    }

    /// On the way to the new image, the backend that is called is the one
    /// that the file calls for.
    pub open spec fn routed(self) -> bool {
        self.goal == Goal::Replace ==> {
            &&& self.is_escalating() ==> self.uses_escalation()
            &&& self.is_loading() ==> !self.uses_escalation()
        }
    }
}

impl ExecRequestView {
    /// The bytes that arguments and environment need once each string is
    /// followed by a NUL.
    pub open spec fn flat_size(self) -> nat {
        total_len(self.args) + total_len(self.envs) + self.args.len() + self.envs.len()
    }

    /// Where the size is worked out here, it is the size of the strings.
    pub open spec fn sized(self) -> bool {
        !self.parsed ==> self.total_args_envs_size == self.flat_size()
    }
}

/// The size that a request begins with is that of its strings, where they
/// come from a C caller.
pub proof fn lemma_new_is_sized(path: Seq<u8>, arg_env: ArgEnv, interp_override: bool)
    requires
        arg_env.spec_size() <= usize::MAX,
    ensures
        ExecRequest::spec_new(path, arg_env, interp_override).sized(),
{
}

/// No step lets the size fall behind the strings: an interpreter that is
/// put in front of the arguments is counted with its NUL. So the size that
/// the loader is told is that of the two flattened buffers together.
pub proof fn lemma_step_keeps_sized(s: ExecRequestView, event: ExecEvent)
    requires
        s.sized(),
        s.accepts(event),
    ensures
        s.step(event).sized(),
        s.step(event).flat_size() == flat_nul(s.step(event).args).len() + flat_nul(
            s.step(event).envs,
        ).len(),
{
    lemma_flat_nul_len(s.step(event).args);
    lemma_flat_nul_len(s.step(event).envs);
    if s.pending == ExecAction::ReadInterpreter {
        if let ExecEvent::Data(line) = event {
            if let Ok(interpreter) = spec_interpreter_path(line@) {
                lemma_total_len_insert_first(s.args, interpreter);
            }
        }
    }
}

/// A request begins with no handle and with neither backend at work.
pub proof fn lemma_new_is_tidy(path: Seq<u8>, arg_env: ArgEnv, interp_override: bool)
    ensures
        ExecRequest::spec_new(path, arg_env, interp_override).tidy(),
        ExecRequest::spec_new(path, arg_env, interp_override).routed(),
{
}

/// No step loses track of a handle.
pub proof fn lemma_step_keeps_tidy(s: ExecRequestView, event: ExecEvent)
    requires
        s.tidy(),
        s.accepts(event),
    ensures
        s.step(event).tidy(),
{
}

/// When an attempt ends, whether with an error or with the new image, every
/// handle that was opened for it has been released or handed over; and it
/// begins, also anew, with none.
pub proof fn lemma_nothing_leaks(s: ExecRequestView)
    requires
        s.tidy(),
        s.pending is Fail || s.pending == ExecAction::Replaced || s.pending == ExecAction::Switch
            || s.pending == ExecAction::OpenImage,
    ensures
        s.held == Handles::spec_none(),
        s.pending matches ExecAction::Fail(error) ==> s.goal == Goal::Fail(error),
{
}

/// No step puts the wrong backend to work. With [`lemma_new_is_tidy`]:
/// whatever happens, a script is never handed to the escalation service,
/// whatever its mode, and a file that is no script and carries the
/// set-user-ID or the set-group-ID bit is never handed to the loader.
pub proof fn lemma_step_keeps_routed(s: ExecRequestView, event: ExecEvent)
    requires
        s.routed(),
        s.accepts(event),
    ensures
        s.step(event).routed(),
{
}

/// Once the channel of the escalation service is open, it is sent the path,
/// the flattened arguments, the flattened environment and the working
/// directory, in this order and nothing else, and is then closed. A write
/// that fails ends the attempt with the error number of the failure.
pub proof fn lemma_escalation_writes(s: ExecRequestView, errno: i32)
    requires
        s.pending == ExecAction::OpenEscalate,
    ensures
        ({
            let path = s.step(ExecEvent::Done);
            let args = path.step(ExecEvent::Done);
            let envs = args.step(ExecEvent::Done);
            let cwd = envs.step(ExecEvent::Done);
            let failed = ExecEvent::Failed(errno);
            &&& s.payload() is None
            &&& path.payload() == Some(s.path)
            &&& args.payload() == Some(flat_nul(s.args))
            &&& envs.payload() == Some(flat_nul(s.envs))
            &&& cwd.payload() == Some(s.cwd)
            &&& cwd.step(ExecEvent::Done).pending == ExecAction::Commit
            &&& cwd.step(ExecEvent::Done).payload() is None
            &&& s.step(failed) == s.fail(ExecError::Os(errno))
            &&& path.step(failed) == path.fail(ExecError::Os(errno))
            &&& args.step(failed) == args.fail(ExecError::Os(errno))
            &&& envs.step(failed) == envs.fail(ExecError::Os(errno))
            &&& cwd.step(failed) == cwd.fail(ExecError::Os(errno))
        }),
{
}

/// A script is traded for its interpreter once. An interpreter that opens
/// with the script marker itself ends the attempt with a format error, and
/// its first line is never asked for.
pub proof fn lemma_one_level_of_scripts(s: ExecRequestView, event: ExecEvent)
    requires
        s.accepts(event),
    ensures
        s.step(event).pending == ExecAction::ReadInterpreter ==> !s.is_interpreted && s.step(
            event,
        ).is_interpreted,
        s.pending == ExecAction::ReadMarker && s.is_interpreted && (event matches ExecEvent::Data(
            head,
        ) && spec_is_shebang(head@)) ==> s.step(event) == s.fail(ExecError::FormatError),
{
}

/// When the clean-up is over and the listing released, the backend is
/// chosen: the escalation service for a file that asks for other credentials
/// and is no script, the loader for every other file.
pub proof fn lemma_backend_choice(s: ExecRequestView, event: ExecEvent)
    requires
        s.goal == Goal::Replace,
        s.pending == ExecAction::Release(Handle::Listing),
        event is Done || event is Failed,
    ensures
        s.uses_escalation() ==> s.step(event).pending == ExecAction::Release(Handle::Image),
        !s.uses_escalation() ==> s.step(event).pending == ExecAction::OpenViaDup,
        s.is_interpreted ==> s.step(event).pending == ExecAction::OpenViaDup,
{
}

/// No backend is begun before the clean-up is over: whichever of the two
/// takes the image, the descriptors flagged close-on-exec are closed first.
pub proof fn lemma_backend_after_cleanup(s: ExecRequestView, event: ExecEvent)
    requires
        s.accepts(event),
        s.step(event).goal == Goal::Replace,
        s.step(event).pending == ExecAction::OpenViaDup || s.step(event).pending
            == ExecAction::Release(Handle::Image),
    ensures
        s.goal == Goal::Replace,
        s.pending == ExecAction::Release(Handle::Listing),
        s.step(event).pending == s.backend(),
{
}

/// A descriptor is closed for one reason only: its flags were asked for just
/// before, and they carry close-on-exec.
pub proof fn lemma_close_only_flagged(s: ExecRequestView, event: ExecEvent, fd: usize)
    requires
        s.accepts(event),
        s.step(event).pending == ExecAction::Close(fd),
    ensures
        s.pending == ExecAction::GetFlags(fd),
        event matches ExecEvent::Flags(flags) && spec_is_cloexec(flags),
{
}

/// The descriptors that the clean-up closes, for a listing of `lines` and
/// descriptors whose flags are `flags`: each one that a line names and whose
/// flags carry close-on-exec, in the order of the lines.
pub open spec fn closed_by_cleanup(lines: Seq<Vec<u8>>, flags: spec_fn(usize) -> usize) -> Seq<
    usize,
>
    decreases lines.len(),
{
    if lines.len() == 0 {
        Seq::empty()
    } else {
        let rest = closed_by_cleanup(lines.drop_first(), flags);
        match spec_parse_descriptor(lines[0]@) {
            Some(fd) => if spec_is_cloexec(flags(fd)) {
                seq![fd] + rest
            } else {
                rest
            },
            None => rest,
        }
    }
}

/// The clean-up as [`execve`] drives it: the request is handed the lines of
/// the listing one by one, each question for flags is answered from `flags`,
/// each close is done, and the end of the listing is reported. The result is
/// the request after that, and the descriptors it had closed, in order.
pub open spec fn run_cleanup(s: ExecRequestView, lines: Seq<Vec<u8>>, flags: spec_fn(usize) -> usize)
    -> (ExecRequestView, Seq<usize>)
    decreases lines.len(),
{
    if lines.len() == 0 {
        (s.step(ExecEvent::Eof), Seq::empty())
    } else {
        let listed = s.step(ExecEvent::Data(lines[0]));
        match listed.pending {
            ExecAction::GetFlags(fd) => {
                let asked = listed.step(ExecEvent::Flags(flags(fd)));
                match asked.pending {
                    ExecAction::Close(closed) => {
                        let (end, more) = run_cleanup(
                            asked.step(ExecEvent::Done),
                            lines.drop_first(),
                            flags,
                        );
                        (end, seq![closed] + more)
                    },
                    _ => run_cleanup(asked, lines.drop_first(), flags),
                }
            },
            _ => run_cleanup(listed, lines.drop_first(), flags),
        }
    }
}

/// The clean-up closes every descriptor of the listing whose flags carry
/// close-on-exec and no other, skips the lines that name none, and then
/// releases the listing with the request otherwise unchanged.
pub proof fn lemma_cleanup_closes_flagged(
    s: ExecRequestView,
    lines: Seq<Vec<u8>>,
    flags: spec_fn(usize) -> usize,
)
    requires
        s.pending == ExecAction::ReadDescriptor,
    ensures
        run_cleanup(s, lines, flags).0 == s.awaiting(ExecAction::Release(Handle::Listing)),
        run_cleanup(s, lines, flags).1 == closed_by_cleanup(lines, flags),
    decreases lines.len(),
{
    if lines.len() > 0 {
        let listed = s.step(ExecEvent::Data(lines[0]));
        match spec_parse_descriptor(lines[0]@) {
            Some(fd) => {
                let asked = listed.step(ExecEvent::Flags(flags(fd)));
                if spec_is_cloexec(flags(fd)) {
                    assert(asked.step(ExecEvent::Done) == s);
                } else {
                    assert(asked == s);
                }
            },
            None => {
                assert(listed == s);
            },
        }
        lemma_cleanup_closes_flagged(s, lines.drop_first(), flags);
    }
}

/// A file that cannot be opened ends the attempt at once with "no such
/// file": no handle was opened, nothing was asked of any descriptor, and the
/// request is otherwise as it began.
pub proof fn lemma_missing_file(path: Seq<u8>, arg_env: ArgEnv, interp_override: bool, errno: i32)
    ensures
        ({
            let begun = ExecRequest::spec_new(path, arg_env, interp_override);
            let ended = begun.step(ExecEvent::Failed(errno));
            &&& begun.pending == ExecAction::OpenImage
            &&& begun.accepts(ExecEvent::Failed(errno))
            &&& ended == (ExecRequestView {
                pending: ExecAction::Fail(ExecError::NoSuchFile),
                goal: Goal::Fail(ExecError::NoSuchFile),
                ..begun
            })
            &&& forall|event: ExecEvent| !ended.accepts(event)
        }),
{
}

} // verus!
