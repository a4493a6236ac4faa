//! Process start: from the stack that the kernel leaves to the program's
//! entry point.
//!
//! The caller copies what it finds at the stack pointer into a [`Stack`] and a
//! [`Memory`]. From there on nothing is read through a raw pointer: the
//! arguments, the environment and the auxiliary vector are counted slices, and
//! the durable copies are owned buffers.

use crate::auxv::aux_pairs;
use crate::auxv::AuxiliaryVector;
use crate::c_str::is_c_string;
use crate::c_str::Memory;
use crate::libgen::basename;
use crate::libgen::spec_basename;
use vstd::prelude::*;
use vstd::slice::slice_subrange;
use vstd::slice::slice_to_vec;

verus! {

/// The initial stack: the argument count, and the words that follow it. These
/// are the argument pointers, a null word, the environment pointers, a null
/// word, and the auxiliary vector.
#[derive(Clone, Debug)]
pub struct Stack {
    pub argc: isize,
    pub words: Vec<usize>,
}

impl Stack {
    /// The index of the first environment pointer: behind the arguments and
    /// the word that ends them.
    pub open spec fn env_start(&self) -> int {
        self.argc + 1
    }

    /// The null word that ends the environment stands at index `e`.
    pub open spec fn env_ends_at(&self, e: int) -> bool {
        &&& self.env_start() <= e < self.words@.len()
        &&& self.words@[e] == 0
        &&& forall|j: int| self.env_start() <= j < e ==> self.words@[j] != 0
    }

    /// The count is not negative, and the environment ends inside the words.
    pub open spec fn wf(&self) -> bool {
        0 <= self.argc && exists|e: int| self.env_ends_at(e)
    }

    /// The index of the null word that ends the environment.
    pub open spec fn env_end(&self) -> int {
        choose|e: int| self.env_ends_at(e)
    }

    /// The argument pointers.
    pub open spec fn arg_ptrs(&self) -> Seq<usize> {
        self.words@.subrange(0, self.argc as int)
    }

    /// The environment pointers, without the null word that ends them.
    pub open spec fn env_ptrs(&self) -> Seq<usize> {
        self.words@.subrange(self.env_start(), self.env_end())
    }

    /// The words behind the environment: the auxiliary vector.
    pub open spec fn aux_words(&self) -> Seq<usize> {
        self.words@.subrange(self.env_end() + 1, self.words@.len() as int)
    }

    /// The environment ends in one place only.
    pub proof fn lemma_env_end(&self, e: int)
        requires
            self.env_ends_at(e),
        ensures
            self.env_end() == e,
    {
        let chosen = self.env_end();
        assert(self.env_ends_at(chosen));
        if chosen < e {
            assert(self.words@[chosen] != 0);
        } else if e < chosen {
            assert(self.words@[e] != 0);
        }
    }

    /// Finds the word that ends the environment, if the stack has one.
    fn find_env_end(&self) -> (r: Option<usize>)
        ensures
            match r {
                Some(e) => 0 <= self.argc && self.env_ends_at(e as int),
                None => !self.wf(),
            },
    {
        if self.argc < 0 {
            return None;
        }
        let argc: usize = self.argc as usize;
        if argc >= self.words.len() {
            return None;
        }
        let mut i: usize = argc + 1;
        while i < self.words.len()
            invariant
                self.env_start() == argc + 1,
                argc + 1 <= i <= self.words.len(),
                forall|j: int| self.env_start() <= j < i ==> self.words@[j] != 0,
            decreases self.words.len() - i,
        {
            if self.words[i] == 0 {
                return Some(i);
            }
            i += 1;
        }
        None
    }

    /// Whether the stack is well-formed.
    pub fn is_well_formed(&self) -> (ok: bool)
        ensures
            ok == self.wf(),
    {
        self.find_env_end().is_some()
    }

    /// The argument array: `argc` pointers.
    pub fn argv(&self) -> (array: &[usize])
        requires
            0 <= self.argc <= self.words@.len(),
        ensures
            array@ == self.arg_ptrs(),
    {
        slice_subrange(self.words.as_slice(), 0, self.argc as usize)
    }

    /// The environment array: the pointers from behind the arguments up to
    /// the first null word.
    pub fn envp(&self) -> (array: &[usize])
        requires
            self.wf(),
        ensures
            array@ == self.env_ptrs(),
    {
        let end: usize = self.find_env_end().unwrap();
        proof {
            self.lemma_env_end(end as int);
        }
        slice_subrange(self.words.as_slice(), self.argc as usize + 1, end)
    }

    /// The auxiliary vector: every word behind the null word that ends the
    /// environment.
    pub fn auxv(&self) -> (array: &[usize])
        requires
            self.wf(),
        ensures
            array@ == self.aux_words(),
    {
        let end: usize = self.find_env_end().unwrap();
        proof {
            self.lemma_env_end(end as int);
        }
        let len: usize = self.words.len();
        slice_subrange(self.words.as_slice(), end + 1, len)
    }
}

/// The strings that `array` points to in `mem`, in the array's order.
pub open spec fn c_strings(mem: &Memory, array: Seq<usize>) -> Seq<Seq<u8>> {
    Seq::new(array.len(), |i: int| mem.c_str(array[i]))
}

/// What an owned string vector holds: one string for each buffer, without
/// its NUL, in the vector's order. The null entry stands for no string.
pub open spec fn owned_strings(vec: Seq<Option<Vec<u8>>>) -> Seq<Seq<u8>> {
    Seq::new(
        vec.len(),
        |i: int|
            match vec[i] {
                Some(buf) => buf@.drop_last(),
                None => Seq::empty(),
            },
    )
}

/// `vec` is an owned string vector of `len` strings: `len` buffers, each one
/// whole C string, and a null entry behind them.
pub open spec fn is_string_vector(vec: Seq<Option<Vec<u8>>>, len: int) -> bool {
    &&& vec.len() == len + 1
    &&& vec[len] is None
    &&& forall|i: int| 0 <= i < len ==> (#[trigger] vec[i] matches Some(buf) && is_c_string(buf@))
}

/// Copies the first `len` strings that `array` points to into buffers of
/// their own, NUL included, and ends the vector with a null entry.
pub fn copy_string_array(mem: &Memory, array: &[usize], len: usize) -> (vec: Vec<Option<Vec<u8>>>)
    requires
        len <= array@.len(),
        forall|i: int| 0 <= i < len ==> mem.has_c_str(#[trigger] array@[i]),
    ensures
        is_string_vector(vec@, len as int),
        owned_strings(vec@).take(len as int) == c_strings(mem, array@.take(len as int)),
{
    let mut vec: Vec<Option<Vec<u8>>> = Vec::new();
    let mut i: usize = 0;
    while i < len
        invariant
            i <= len <= array@.len(),
            forall|k: int| 0 <= k < len ==> mem.has_c_str(#[trigger] array@[k]),
            vec@.len() == i,
            forall|k: int|
                0 <= k < i ==> (#[trigger] vec@[k] matches Some(buf) && buf@ == mem.c_str(
                    array@[k],
                ).push(0) && is_c_string(buf@)),
        decreases len - i,
    {
        let buf = mem.copy_c_str(array[i]);
        vec.push(Some(buf));
        i += 1;
    }
    vec.push(None);
    proof {
        let got = owned_strings(vec@).take(len as int);
        let want = c_strings(mem, array@.take(len as int));
        assert forall|k: int| 0 <= k < len implies got[k] == want[k] by {
            let buf = vec@[k]->Some_0;
            assert(buf@ == mem.c_str(array@[k]).push(0));
            assert(buf@.drop_last() =~= mem.c_str(array@[k]));
        }
        assert(got =~= want);
    }
    vec
}

/// What is to be done about the allocator's arena.
#[derive(Clone, Copy, Debug, PartialEq, Eq, Structural)]
pub enum AllocAction {
    /// Nothing: the allocator is bound already.
    Keep,
    /// Bind the allocator to this arena, which the thread's control block names.
    Adopt(usize),
    /// Make a new arena and bind the allocator to it.
    Create,
}

/// The arena of the thread's control block wins where there is one; else an
/// arena is made only if the allocator has none. Once the runtime is
/// initialised nothing changes any more.
pub open spec fn spec_alloc_init(init_complete: bool, tcb_mspace: Option<usize>, book_keeper: usize)
    -> AllocAction {
    let named: usize = match tcb_mspace {
        Some(mspace) => mspace,
        None => 0,
    };
    if init_complete {
        AllocAction::Keep
    } else if named != 0 {
        AllocAction::Adopt(named)
    } else if book_keeper == 0 {
        AllocAction::Create
    } else {
        AllocAction::Keep
    }
}

/// Decides how the allocator gets its arena. `tcb_mspace` is the arena that
/// the control block of the current thread names, if the thread has a
/// control block; `book_keeper` is the arena the allocator is bound to, 0
/// for none.
pub fn alloc_init(init_complete: bool, tcb_mspace: Option<usize>, book_keeper: usize) -> (action:
    AllocAction)
    ensures
        action == spec_alloc_init(init_complete, tcb_mspace, book_keeper),
{
    if init_complete {
        return AllocAction::Keep;
    }
    match tcb_mspace {
        Some(mspace) => {
            if mspace != 0 {
                AllocAction::Adopt(mspace)
            } else if book_keeper == 0 {
                AllocAction::Create
            } else {
                AllocAction::Keep
            }
        },
        None => {
            if book_keeper == 0 {
                AllocAction::Create
            } else {
                AllocAction::Keep
            }
        },
    }
}

/// The arena that the allocator is bound to once `action` is carried out:
/// `book_keeper` was bound before, and `fresh` is the arena that is made
/// where one has to be made.
pub open spec fn bound_after(action: AllocAction, book_keeper: usize, fresh: usize) -> usize {
    match action {
        AllocAction::Keep => book_keeper,
        AllocAction::Adopt(mspace) => mspace,
        AllocAction::Create => fresh,
    }
}

/// The allocator's arena is made once at most. When [`alloc_init`] is asked
/// again after its answer was carried out, it makes no arena, and the
/// allocator stays bound as it is.
pub proof fn lemma_alloc_init_settles(
    init_complete: bool,
    tcb_mspace: Option<usize>,
    book_keeper: usize,
    fresh: usize,
    later_complete: bool,
    later_fresh: usize,
)
    requires
        fresh != 0,
    ensures
        ({
            let first = spec_alloc_init(init_complete, tcb_mspace, book_keeper);
            let bound = bound_after(first, book_keeper, fresh);
            let second = spec_alloc_init(later_complete, tcb_mspace, bound);
            &&& !init_complete ==> bound != 0
            &&& !init_complete ==> second != AllocAction::Create
            &&& !init_complete ==> bound_after(second, bound, later_fresh) == bound
        }),
{
}

/// The environment of the process once a table is offered to it: who wrote
/// first, wins. The table that is offered is taken only where the process
/// has none.
pub open spec fn adopted_environ<T>(environ: Option<T>, offered: Option<T>) -> Option<T> {
    if environ is None {
        offered
    } else {
        environ
    }
}

/// The latch on the runtime's own initialisation. It is reached from two
/// sides, as an entry of the init array and from the start of the process;
/// whoever comes first is told to initialise, and the flag is set for good.
///
/// `environ` is the environment of the process, `None` for none, and
/// `init_environ` the table that the dynamic linker has left. Whoever comes
/// first takes the linker's table where the process has no environment yet.
/// An environment that is there is never overwritten.
pub fn init_array<T>(init_complete: &mut bool, environ: &mut Option<T>, init_environ: Option<T>)
    -> (first: bool)
    ensures
        first == !*old(init_complete),
        *final(init_complete),
        *final(environ) == if first {
            adopted_environ(*old(environ), init_environ)
        } else {
            *old(environ)
        },
{
    if *init_complete {
        false
    } else {
        *init_complete = true;
        if environ.is_none() {
            *environ = init_environ;
        }
        true
    }
}

/// How many of `entries` calls of [`init_array`] in a row are told to
/// initialise, when the flag stands at `init_complete` before the first.
pub open spec fn initialisations(init_complete: bool, entries: nat) -> nat
    decreases entries,
{
    if entries == 0 {
        0
    } else if init_complete {
        initialisations(true, (entries - 1) as nat)
    } else {
        1 + initialisations(true, (entries - 1) as nat)
    }
}

/// However often [`init_array`] is called, the runtime is initialised once:
/// by the first call if the flag was not set, by none if it was.
pub proof fn lemma_initialised_once(init_complete: bool, entries: nat)
    ensures
        init_complete ==> initialisations(init_complete, entries) == 0,
        !init_complete && entries > 0 ==> initialisations(init_complete, entries) == 1,
    decreases entries,
{
    if entries > 0 {
        lemma_initialised_once(true, (entries - 1) as nat);
    }
}

/// The size of the stack that signal handlers run on.
pub const SIGSTACK_SIZE: usize = 1024 * 256;

/// The address to register as the signal stack: the end of the mapping that
/// starts at `base`, since the stack grows downwards.
pub fn sigstack_top(base: usize) -> (top: usize)
    requires
        base + SIGSTACK_SIZE <= usize::MAX,
    ensures
        top == base + SIGSTACK_SIZE,
{
    base + SIGSTACK_SIZE
}

/// Every pointer of `array` has a C string in `mem`.
pub open spec fn all_c_strings(mem: &Memory, array: Seq<usize>) -> bool {
    forall|i: int| 0 <= i < array.len() ==> mem.has_c_str(#[trigger] array[i])
}

/// Whether every pointer of `array` has a C string in `mem`.
pub fn check_c_strings(mem: &Memory, array: &[usize]) -> (ok: bool)
    ensures
        ok == all_c_strings(mem, array@),
{
    let mut i: usize = 0;
    while i < array.len()
        invariant
            i <= array@.len(),
            forall|k: int| 0 <= k < i ==> mem.has_c_str(#[trigger] array@[k]),
        decreases array@.len() - i,
    {
        if mem.strlen(array[i]).is_none() {
            return false;
        }
        i += 1;
    }
    true
}

impl Stack {
    /// Every argument and every environment pointer has its string in `mem`.
    pub open spec fn strings_in(&self, mem: &Memory) -> bool {
        all_c_strings(mem, self.arg_ptrs()) && all_c_strings(mem, self.env_ptrs())
    }

    /// Whether every argument and every environment pointer has its string in `mem`.
    pub fn has_strings_in(&self, mem: &Memory) -> (ok: bool)
        requires
            self.wf(),
        ensures
            ok == self.strings_in(mem),
    {
        check_c_strings(mem, self.argv()) && check_c_strings(mem, self.envp())
    }
}

/// What the start of the process makes of the initial stack, for the
/// program and for the rest of the runtime. Nothing in it points into the
/// stack any more.
#[derive(Clone, Debug)]
pub struct Bootstrap {
    /// The argument count, as the stack gave it.
    pub argc: isize,
    /// The durable copy of the arguments.
    pub argv: Vec<Option<Vec<u8>>>,
    /// The durable copy of the environment; `None` where the process had an
    /// environment already, which is then left as it is.
    pub environ: Option<Vec<Option<Vec<u8>>>>,
    /// The auxiliary vector.
    pub auxvs: AuxiliaryVector,
    /// The name the program was called by: its first argument, if it has one.
    pub program_invocation_name: Option<Vec<u8>>,
    /// The final component of that name.
    pub program_invocation_short_name: Vec<u8>,
}

impl Bootstrap {
    /// The name that a stack gives the program: the string of its first
    /// argument, or nothing where it has no argument.
    pub open spec fn spec_name(sp: &Stack, mem: &Memory) -> Option<Seq<u8>> {
        if sp.argc > 0 {
            Some(mem.c_str(sp.arg_ptrs()[0]))
        } else {
            None
        }
    }

    /// `self` is what `sp` and `mem` hold, copied: the same strings in the
    /// same order. The environment is copied only where the process has
    /// none yet: who wrote it first, wins.
    pub open spec fn is_copy_of(&self, sp: &Stack, mem: &Memory, environ_is_null: bool) -> bool {
        &&& self.argc == sp.argc
        &&& is_string_vector(self.argv@, sp.argc as int)
        &&& owned_strings(self.argv@).take(sp.argc as int) == c_strings(mem, sp.arg_ptrs())
        &&& self.environ is Some <==> environ_is_null
        &&& self.environ matches Some(environ) ==> {
            &&& is_string_vector(environ@, sp.env_ptrs().len() as int)
            &&& owned_strings(environ@).take(sp.env_ptrs().len() as int) == c_strings(
                mem,
                sp.env_ptrs(),
            )
        }
        &&& self.auxvs@ == aux_pairs(sp.aux_words())
        &&& match Self::spec_name(sp, mem) {
            Some(name) => {
                &&& self.program_invocation_name matches Some(own) && own@ == name
                &&& self.program_invocation_short_name@ == spec_basename(name)
            },
            None => {
                &&& self.program_invocation_name is None
                &&& self.program_invocation_short_name@ == spec_basename(Seq::empty())
            },
        }
    }

    /// Copies arguments and environment out of the initial stack, parses the
    /// auxiliary vector, and derives the names of the program.
    /// `environ_is_null` says that the process has no environment yet.
    pub fn new(sp: &Stack, mem: &Memory, environ_is_null: bool) -> (boot: Bootstrap)
        requires
            sp.wf(),
            sp.strings_in(mem),
        ensures
            boot.is_copy_of(sp, mem, environ_is_null),
    {
        let args = sp.argv();
        let argv = copy_string_array(mem, args, args.len());
        assert(args@.take(args@.len() as int) =~= args@);
        let program_invocation_name: Option<Vec<u8>> = if args.len() > 0 {
            let buf = mem.copy_c_str(args[0]);
            let body = slice_subrange(buf.as_slice(), 0, buf.len() - 1);
            assert(body@ =~= mem.c_str(args@[0]));
            Some(slice_to_vec(body))
        } else {
            None
        };
        let program_invocation_short_name = match &program_invocation_name {
            Some(name) => basename(name.as_slice()),
            None => {
                let none: Vec<u8> = Vec::new();
                assert(none@ =~= Seq::<u8>::empty());
                basename(none.as_slice())
            },
        };
        let environ = if environ_is_null {
            let envs = sp.envp();
            assert(envs@.take(envs@.len() as int) =~= envs@);
            Some(copy_string_array(mem, envs, envs.len()))
        } else {
            None
        };
        let auxvs = AuxiliaryVector::parse(sp.auxv());
        Bootstrap {
            argc: sp.argc,
            argv,
            environ,
            auxvs,
            program_invocation_name,
            program_invocation_short_name,
        }
    }
}

/// What the caller of [`relibc_start`] has to do next. Each action but
/// `Abort` and `Exit` is answered with one [`StartEvent`].
#[derive(Clone, Copy, Debug, PartialEq, Eq, Structural)]
pub enum StartAction {
    /// Find out whether this binary was built for the system it runs on.
    VerifyHost,
    /// Stop at once: the binary does not belong on this system.
    Abort,
    /// Set up thread-local storage for the first thread, where the platform
    /// leaves that to the runtime.
    InitTls,
    /// Bind the allocator to its arena, as [`alloc_init`] decides. Nothing
    /// may allocate before this is done.
    AllocInit,
    /// Make the durable copies with [`Bootstrap::new`] and publish them.
    Publish,
    /// Give signal handlers a stack of their own.
    SetupSigstack,
    /// Enter the runtime's own initialisation through [`init_array`].
    InitArray,
    /// Call this entry of the pre-init array.
    Preinit(usize),
    /// Call the linker's init hook.
    Init,
    /// Call this entry of the init array.
    InitEntry(usize),
    /// Call the program's entry point with the durable copies.
    Main,
    /// End the process with this status.
    Exit(i32),
}

/// What came of the action that was asked for.
#[derive(Clone, Copy, Debug, PartialEq, Eq, Structural)]
pub enum StartEvent {
    /// It is done.
    Done,
    /// Whether the binary belongs on this system.
    HostVerified(bool),
    /// The entry point has returned this value.
    MainReturned(i32),
}

/// The start of a process: where it stands, and how long the two arrays of
/// constructors are. It holds no heap memory, so it can be used before the
/// allocator is bound.
#[derive(Clone, Copy, Debug, PartialEq, Eq, Structural)]
pub struct Startup {
    /// The action whose outcome is awaited.
    pub pending: StartAction,
    /// The number of entries of the pre-init array.
    pub preinit_len: usize,
    /// The number of entries of the init array.
    pub init_len: usize,
    /// The platform wants a signal stack set up before the program runs.
    pub needs_sigstack: bool,
}

/// Whether to go on after the host was checked: on a system that the binary
/// was not built for, nothing further is done.
pub fn relibc_verify_host(verified: bool) -> (next: StartAction)
    ensures
        next == if verified {
            StartAction::InitTls
        } else {
            StartAction::Abort
        },
{
    if verified {
        StartAction::InitTls
    } else {
        StartAction::Abort
    }
}

impl Startup {
    /// The same start, waiting on `next`.
    pub open spec fn awaiting(self, next: StartAction) -> Startup {
        Startup { pending: next, ..self }
    }

    /// The entry of the pre-init array to call at position `i`, or what
    /// follows the array where it has no such entry.
    pub open spec fn preinit_from(self, i: int) -> StartAction {
        if i < self.preinit_len {
            StartAction::Preinit(i as usize)
        } else {
            StartAction::Init
        }
    }

    /// The entry of the init array to call at position `i`, or what follows
    /// the array where it has no such entry.
    pub open spec fn init_from(self, i: int) -> StartAction {
        if i < self.init_len {
            StartAction::InitEntry(i as usize)
        } else {
            StartAction::Main
        }
    }

    /// `event` can be the outcome of the pending action.
    pub open spec fn accepts(self, event: StartEvent) -> bool {
        match self.pending {
            StartAction::VerifyHost => event is HostVerified,
            StartAction::Main => event is MainReturned,
            StartAction::Abort | StartAction::Exit(_) => false,
            _ => event is Done,
        }
    }

    /// The start after `event` has answered the pending action.
    pub open spec fn step(self, event: StartEvent) -> Startup {
        match self.pending {
            StartAction::VerifyHost => match event {
                StartEvent::HostVerified(true) => self.awaiting(StartAction::InitTls),
                StartEvent::HostVerified(false) => self.awaiting(StartAction::Abort),
                _ => self,
            },
            StartAction::InitTls => self.awaiting(StartAction::AllocInit),
            StartAction::AllocInit => self.awaiting(StartAction::Publish),
            StartAction::Publish => self.awaiting(
                if self.needs_sigstack {
                    StartAction::SetupSigstack
                } else {
                    StartAction::InitArray
                },
            ),
            StartAction::SetupSigstack => self.awaiting(StartAction::InitArray),
            StartAction::InitArray => self.awaiting(self.preinit_from(0)),
            StartAction::Preinit(i) => self.awaiting(self.preinit_from(i + 1)),
            StartAction::Init => self.awaiting(self.init_from(0)),
            StartAction::InitEntry(i) => self.awaiting(self.init_from(i + 1)),
            StartAction::Main => match event {
                StartEvent::MainReturned(status) => self.awaiting(StartAction::Exit(status)),
                _ => self,
            },
            StartAction::Abort | StartAction::Exit(_) => self,
        }
    }

    /// A process as it starts: the first thing to do is to check the host.
    pub fn new(preinit_len: usize, init_len: usize, needs_sigstack: bool) -> (startup: Startup)
        ensures
            startup == (Startup {
                pending: StartAction::VerifyHost,
                preinit_len,
                init_len,
                needs_sigstack,
            }),
    {
        Startup { pending: StartAction::VerifyHost, preinit_len, init_len, needs_sigstack }
    }

    /// Whether `event` may be handed to [`relibc_start`] now.
    pub fn accepts_event(&self, event: StartEvent) -> (ok: bool)
        ensures
            ok == self.accepts(event),
    {
        match self.pending {
            StartAction::VerifyHost => matches!(event, StartEvent::HostVerified(_)),
            StartAction::Main => matches!(event, StartEvent::MainReturned(_)),
            StartAction::Abort | StartAction::Exit(_) => false,
            _ => matches!(event, StartEvent::Done),
        }
    }
}

/// One step of the start of a process: takes the outcome of the action that
/// `startup` was waiting on, and says what to do next.
///
/// The caller starts with [`Startup::new`] and the action `VerifyHost`,
/// performs each action it is given and hands back what came of it. `Abort`
/// and `Exit` end the process; neither is answered.
pub fn relibc_start(startup: &mut Startup, event: StartEvent) -> (next: StartAction)
    requires
        old(startup).accepts(event),
    ensures
        *final(startup) == old(startup).step(event),
        next == final(startup).pending,
{
    let next: StartAction = match startup.pending {
        StartAction::VerifyHost => match event {
            StartEvent::HostVerified(verified) => relibc_verify_host(verified),
            _ => startup.pending,
        },
        StartAction::InitTls => StartAction::AllocInit,
        StartAction::AllocInit => StartAction::Publish,
        StartAction::Publish => if startup.needs_sigstack {
            StartAction::SetupSigstack
        } else {
            StartAction::InitArray
        },
        StartAction::SetupSigstack => StartAction::InitArray,
        StartAction::InitArray => if 0 < startup.preinit_len {
            StartAction::Preinit(0)
        } else {
            StartAction::Init
        },
        StartAction::Preinit(i) => if i < startup.preinit_len && i + 1 < startup.preinit_len {
            StartAction::Preinit(i + 1)
        } else {
            StartAction::Init
        },
        StartAction::Init => if 0 < startup.init_len {
            StartAction::InitEntry(0)
        } else {
            StartAction::Main
        },
        StartAction::InitEntry(i) => if i < startup.init_len && i + 1 < startup.init_len {
            StartAction::InitEntry(i + 1)
        } else {
            StartAction::Main
        },
        StartAction::Main => match event {
            StartEvent::MainReturned(status) => StartAction::Exit(status),
            _ => startup.pending,
        },
        StartAction::Abort | StartAction::Exit(_) => startup.pending,
    };
    startup.pending = next;
    next
}

/// The start after `n` actions in a row were answered with `Done`.
pub open spec fn after_done(startup: Startup, n: nat) -> Startup
    decreases n,
{
    if n == 0 {
        startup
    } else {
        after_done(startup, (n - 1) as nat).step(StartEvent::Done)
    }
}

/// The calls that run the constructors, in their order: every entry of the
/// pre-init array from the first to the last, the linker's init hook, every
/// entry of the init array from the first to the last.
pub open spec fn constructor_calls(preinit_len: usize, init_len: usize) -> Seq<StartAction> {
    Seq::new(preinit_len as nat, |i: int| StartAction::Preinit(i as usize)) + seq![
        StartAction::Init,
    ] + Seq::new(init_len as nat, |i: int| StartAction::InitEntry(i as usize))
}

/// Everything that a start does when the host is the right one, in its
/// order: the host is checked, thread-local storage and the allocator are set
/// up, the durable copies are published, the signal stack is set up where
/// the platform wants one, the runtime initialises itself, the constructors
/// run, and the program is entered.
pub open spec fn start_sequence(startup: Startup) -> Seq<StartAction> {
    seq![
        StartAction::VerifyHost,
        StartAction::InitTls,
        StartAction::AllocInit,
        StartAction::Publish,
    ] + (if startup.needs_sigstack {
        seq![StartAction::SetupSigstack]
    } else {
        Seq::empty()
    }) + seq![StartAction::InitArray] + constructor_calls(startup.preinit_len, startup.init_len)
        + seq![StartAction::Main]
}

/// On the right host a start goes through [`start_sequence`] from its first
/// action to its last, leaving none out and doing none twice: so each entry
/// of either array of constructors is called once, in ascending order. When
/// the program returns, the process exits with the value it returned.
pub proof fn lemma_start_in_order(startup: Startup, k: nat, status: i32)
    requires
        startup.pending == StartAction::VerifyHost,
        1 <= k < start_sequence(startup).len(),
    ensures
        ({
            let verified = startup.step(StartEvent::HostVerified(true));
            let now = after_done(verified, (k - 1) as nat);
            &&& now == startup.awaiting(start_sequence(startup)[k as int])
            &&& now.pending == StartAction::Main ==> now.step(StartEvent::MainReturned(status))
                == startup.awaiting(StartAction::Exit(status))
        }),
        start_sequence(startup)[0] == startup.pending,
        start_sequence(startup).last() == StartAction::Main,
    decreases k,
{
    let verified = startup.step(StartEvent::HostVerified(true));
    let order = start_sequence(startup);
    let n = startup.preinit_len as int;
    let m = startup.init_len as int;
    let lead: int = if startup.needs_sigstack {
        6
    } else {
        5
    };
    assert(order.len() == lead + n + m + 2);
    assert(order[lead - 1] == StartAction::InitArray);
    assert forall|j: int| lead <= j < lead + n + m + 1 implies #[trigger] order[j] == (if j - lead
        < n {
        StartAction::Preinit((j - lead) as usize)
    } else if j - lead == n {
        StartAction::Init
    } else {
        StartAction::InitEntry((j - lead - n - 1) as usize)
    }) by {}
    if k > 1 {
        lemma_start_in_order(startup, (k - 1) as nat, status);
        let before = after_done(verified, (k - 2) as nat);
        assert(after_done(verified, (k - 1) as nat) == before.step(StartEvent::Done));
    } else {
        assert(after_done(verified, 0) == verified);
    }
}

} // verus!
