use relibc::auxv::{AuxiliaryVector, AT_NULL};
use relibc::c_str::Memory;
use relibc::libgen::basename;
use relibc::start::{
    alloc_init, check_c_strings, copy_string_array, init_array, relibc_start, relibc_verify_host,
    sigstack_top, AllocAction, Bootstrap, Stack, StartAction, StartEvent, Startup, SIGSTACK_SIZE,
};

const BASE: usize = 0x7000;

// "prog\0hello\0X=1\0"
fn strings() -> Memory {
    Memory { base: BASE, bytes: b"prog\0hello\0X=1\0".to_vec() }
}

// argc = 2, argv = ["prog", "hello"], envp = ["X=1"], auxv = [(6, 4096), (25, 0xbeef)]
fn stack() -> Stack {
    Stack {
        argc: 2,
        words: vec![BASE, BASE + 5, 0, BASE + 11, 0, 6, 4096, 25, 0xbeef, AT_NULL, 0],
    }
}

fn strings_of(vec: &[Option<Vec<u8>>]) -> Vec<Vec<u8>> {
    vec.iter().flatten().map(|buf| buf[..buf.len() - 1].to_vec()).collect()
}

#[test]
fn stack_argv_is_the_counted_run_of_argument_pointers() {
    let sp = stack();
    assert!(sp.is_well_formed());
    assert_eq!(sp.argv(), &[BASE, BASE + 5][..]);
}

#[test]
fn stack_envp_skips_the_word_behind_the_arguments() {
    let sp = stack();
    assert_eq!(sp.envp(), &[BASE + 11][..]);
}

#[test]
fn stack_auxv_starts_behind_the_environment_terminator() {
    let sp = stack();
    assert_eq!(sp.auxv(), &[6, 4096, 25, 0xbeef, AT_NULL, 0][..]);
}

#[test]
fn stack_without_arguments_or_environment() {
    let sp = Stack { argc: 0, words: vec![0, 0] };
    assert!(sp.is_well_formed());
    assert_eq!(sp.argv(), &[][..]);
    assert_eq!(sp.envp(), &[][..]);
    assert_eq!(sp.auxv(), &[][..]);
}

#[test]
fn stack_envp_does_not_read_the_argument_terminator() {
    // the word behind the arguments is skipped, whatever it holds
    let sp = Stack { argc: 1, words: vec![BASE, 77, BASE + 11, 0, 0, 0] };
    assert!(sp.is_well_formed());
    assert_eq!(sp.envp(), &[BASE + 11][..]);
    assert_eq!(sp.auxv(), &[0, 0][..]);
}

#[test]
fn stack_is_ill_formed_with_negative_count() {
    let sp = Stack { argc: -1, words: vec![0, 0, 0] };
    assert!(!sp.is_well_formed());
}

#[test]
fn stack_is_ill_formed_when_count_exceeds_words() {
    let sp = Stack { argc: 3, words: vec![BASE, BASE + 5, 0] };
    assert!(!sp.is_well_formed());
    let sp = Stack { argc: 3, words: vec![BASE, BASE + 5, BASE, 0] };
    assert!(!sp.is_well_formed());
    let sp = Stack { argc: isize::MAX, words: vec![0] };
    assert!(!sp.is_well_formed());
}

#[test]
fn stack_is_ill_formed_without_environment_terminator() {
    let sp = Stack { argc: 1, words: vec![BASE, 0, BASE + 11, BASE + 11] };
    assert!(!sp.is_well_formed());
    let sp = Stack { argc: 0, words: vec![] };
    assert!(!sp.is_well_formed());
}

#[test]
fn copy_string_array_copies_in_order_and_ends_with_null() {
    let mem = strings();
    let vec = copy_string_array(&mem, &[BASE, BASE + 5], 2);
    assert_eq!(vec, vec![Some(b"prog\0".to_vec()), Some(b"hello\0".to_vec()), None]);
}

#[test]
fn copy_string_array_copies_only_len_entries() {
    let mem = strings();
    let vec = copy_string_array(&mem, &[BASE, BASE + 5, 0xdead], 1);
    assert_eq!(vec, vec![Some(b"prog\0".to_vec()), None]);
}

#[test]
fn copy_string_array_of_nothing_is_the_null_entry() {
    let mem = strings();
    let vec = copy_string_array(&mem, &[], 0);
    assert_eq!(vec, vec![None]);
}

#[test]
fn copy_string_array_copies_shared_and_empty_strings() {
    let mem = strings();
    let vec = copy_string_array(&mem, &[BASE + 4, BASE + 7, BASE + 7], 3);
    assert_eq!(vec, vec![Some(b"\0".to_vec()), Some(b"llo\0".to_vec()), Some(b"llo\0".to_vec()), None]);
}

#[test]
fn copies_do_not_change_when_the_stack_is_reused() {
    let mut mem = strings();
    let mut sp = stack();
    let boot = Bootstrap::new(&sp, &mem, true);
    for byte in mem.bytes.iter_mut() {
        *byte = 0xaa;
    }
    for word in sp.words.iter_mut() {
        *word = 0;
    }
    sp.argc = 0;
    assert_eq!(strings_of(&boot.argv), vec![b"prog".to_vec(), b"hello".to_vec()]);
    assert_eq!(strings_of(boot.environ.as_ref().unwrap()), vec![b"X=1".to_vec()]);
}

#[test]
fn check_c_strings_finds_the_pointer_without_string() {
    let mem = strings();
    assert!(check_c_strings(&mem, &[BASE, BASE + 5, BASE + 11]));
    assert!(check_c_strings(&mem, &[]));
    assert!(!check_c_strings(&mem, &[BASE, 0, BASE + 11]));
    assert!(!check_c_strings(&mem, &[BASE + 15]));
}

#[test]
fn stack_has_strings_in_memory() {
    let mem = strings();
    assert!(stack().has_strings_in(&mem));
    let short = Memory { base: BASE, bytes: b"prog\0hello\0X=1".to_vec() };
    assert!(!stack().has_strings_in(&short));
}

#[test]
fn bootstrap_end_to_end() {
    let mem = strings();
    let sp = stack();
    assert!(sp.is_well_formed() && sp.has_strings_in(&mem));
    let boot = Bootstrap::new(&sp, &mem, true);
    assert_eq!(boot.argc, 2);
    assert_eq!(boot.argv, vec![Some(b"prog\0".to_vec()), Some(b"hello\0".to_vec()), None]);
    assert_eq!(boot.environ, Some(vec![Some(b"X=1\0".to_vec()), None]));
    assert_eq!(boot.program_invocation_name, Some(b"prog".to_vec()));
    assert_eq!(boot.program_invocation_short_name, b"prog".to_vec());
    assert_eq!(boot.auxvs.len(), 2);
    assert_eq!(boot.auxvs.get(6), Some(4096));
    assert_eq!(boot.auxvs.get(25), Some(0xbeef));
}

#[test]
fn bootstrap_leaves_an_environment_that_is_there() {
    let boot = Bootstrap::new(&stack(), &strings(), false);
    assert_eq!(boot.environ, None);
    assert_eq!(boot.argv, vec![Some(b"prog\0".to_vec()), Some(b"hello\0".to_vec()), None]);
}

#[test]
fn bootstrap_short_name_is_the_final_component() {
    let mem = Memory { base: 16, bytes: b"/usr/bin/env\0".to_vec() };
    let sp = Stack { argc: 1, words: vec![16, 0, 0, AT_NULL, 0] };
    let boot = Bootstrap::new(&sp, &mem, true);
    assert_eq!(boot.program_invocation_name, Some(b"/usr/bin/env".to_vec()));
    assert_eq!(boot.program_invocation_short_name, b"env".to_vec());
    assert_eq!(boot.environ, Some(vec![None]));
    assert_eq!(boot.auxvs.len(), 0);
}

#[test]
fn bootstrap_without_arguments_has_no_name() {
    let mem = Memory { base: 16, bytes: vec![] };
    let sp = Stack { argc: 0, words: vec![0, 0] };
    let boot = Bootstrap::new(&sp, &mem, true);
    assert_eq!(boot.argv, vec![None]);
    assert_eq!(boot.program_invocation_name, None);
    assert_eq!(boot.program_invocation_short_name, b".".to_vec());
}

#[test]
fn auxv_stops_at_the_null_key() {
    let auxv = AuxiliaryVector::parse(&[6, 4096, 3, 0x4000, AT_NULL, 0, 9, 9]);
    assert_eq!(auxv.len(), 2);
    assert_eq!(auxv.get(6), Some(4096));
    assert_eq!(auxv.get(3), Some(0x4000));
    assert_eq!(auxv.get(9), None);
    assert_eq!(auxv.get(AT_NULL), None);
}

#[test]
fn auxv_stops_at_the_end_of_the_words() {
    assert_eq!(AuxiliaryVector::parse(&[]).len(), 0);
    assert_eq!(AuxiliaryVector::parse(&[6]).len(), 0);
    let auxv = AuxiliaryVector::parse(&[6, 4096, 3]);
    assert_eq!(auxv.len(), 1);
    assert_eq!(auxv.get(6), Some(4096));
    assert_eq!(auxv.get(3), None);
}

#[test]
fn auxv_first_pair_of_a_key_wins() {
    let auxv = AuxiliaryVector::parse(&[6, 4096, 6, 8192, AT_NULL, 0]);
    assert_eq!(auxv.len(), 2);
    assert_eq!(auxv.get(6), Some(4096));
}

#[test]
fn auxv_value_zero_is_a_value() {
    let auxv = AuxiliaryVector::parse(&[23, 0, AT_NULL, 0]);
    assert_eq!(auxv.get(23), Some(0));
}

#[test]
fn basename_of_plain_name() {
    assert_eq!(basename(b"prog"), b"prog".to_vec());
}

#[test]
fn basename_of_path() {
    assert_eq!(basename(b"/usr/lib/libc.so"), b"libc.so".to_vec());
    assert_eq!(basename(b"./a.out"), b"a.out".to_vec());
    assert_eq!(basename(b"dir/sub"), b"sub".to_vec());
}

#[test]
fn basename_ignores_trailing_slashes() {
    assert_eq!(basename(b"/usr/"), b"usr".to_vec());
    assert_eq!(basename(b"usr///"), b"usr".to_vec());
    assert_eq!(basename(b"/a/b//"), b"b".to_vec());
}

#[test]
fn basename_of_empty_and_of_root() {
    assert_eq!(basename(b""), b".".to_vec());
    assert_eq!(basename(b"/"), b"/".to_vec());
    assert_eq!(basename(b"///"), b"/".to_vec());
}

#[test]
fn alloc_init_does_nothing_once_initialised() {
    assert_eq!(alloc_init(true, Some(0x5000), 0), AllocAction::Keep);
    assert_eq!(alloc_init(true, None, 0), AllocAction::Keep);
}

#[test]
fn alloc_init_adopts_the_arena_of_the_control_block() {
    assert_eq!(alloc_init(false, Some(0x5000), 0), AllocAction::Adopt(0x5000));
    // even where the allocator is bound already
    assert_eq!(alloc_init(false, Some(0x5000), 0x9000), AllocAction::Adopt(0x5000));
}

#[test]
fn alloc_init_creates_an_arena_where_none_is_known() {
    assert_eq!(alloc_init(false, None, 0), AllocAction::Create);
    assert_eq!(alloc_init(false, Some(0), 0), AllocAction::Create);
}

#[test]
fn alloc_init_keeps_the_arena_that_is_bound() {
    assert_eq!(alloc_init(false, None, 0x9000), AllocAction::Keep);
    assert_eq!(alloc_init(false, Some(0), 0x9000), AllocAction::Keep);
}

#[test]
fn init_array_initialises_once() {
    let mut init_complete = false;
    let mut environ: Option<u32> = None;
    assert!(init_array(&mut init_complete, &mut environ, None));
    assert!(init_complete);
    assert!(!init_array(&mut init_complete, &mut environ, None));
    assert!(init_complete);
    assert!(!init_array(&mut init_complete, &mut environ, None));
    assert!(init_complete);
}

#[test]
fn init_array_does_nothing_when_the_flag_is_set() {
    let mut init_complete = true;
    let mut environ: Option<u32> = None;
    assert!(!init_array(&mut init_complete, &mut environ, Some(7)));
    assert!(init_complete);
    assert_eq!(environ, None);
    let mut environ = Some(3);
    assert!(!init_array(&mut init_complete, &mut environ, Some(7)));
    assert_eq!(environ, Some(3));
}

#[test]
fn init_array_takes_the_linkers_environment_where_there_is_none() {
    let mut init_complete = false;
    let mut environ: Option<&str> = None;
    assert!(init_array(&mut init_complete, &mut environ, Some("from the linker")));
    assert_eq!(environ, Some("from the linker"));
}

#[test]
fn init_array_never_overwrites_an_environment() {
    let mut init_complete = false;
    let mut environ = Some("set before");
    assert!(init_array(&mut init_complete, &mut environ, Some("from the linker")));
    assert_eq!(environ, Some("set before"));
    let mut init_complete = false;
    let mut environ = Some("set before");
    assert!(init_array(&mut init_complete, &mut environ, None));
    assert_eq!(environ, Some("set before"));
}

#[test]
fn init_array_without_any_environment_leaves_none() {
    let mut init_complete = false;
    let mut environ: Option<u8> = None;
    assert!(init_array(&mut init_complete, &mut environ, None));
    assert_eq!(environ, None);
}

#[test]
fn init_array_adopts_only_on_the_first_entry() {
    let mut init_complete = false;
    let mut environ: Option<u8> = None;
    assert!(init_array(&mut init_complete, &mut environ, None));
    // a table that turns up later is not taken by a later entry
    assert!(!init_array(&mut init_complete, &mut environ, Some(1)));
    assert_eq!(environ, None);
}

#[test]
fn stack_argv_needs_no_environment_terminator() {
    let sp = Stack { argc: 2, words: vec![BASE, BASE + 5] };
    assert!(!sp.is_well_formed());
    assert_eq!(sp.argv(), &[BASE, BASE + 5][..]);
}

#[test]
fn sigstack_top_is_the_end_of_the_mapping() {
    assert_eq!(SIGSTACK_SIZE, 262144);
    assert_eq!(sigstack_top(0x10000), 0x10000 + 262144);
    assert_eq!(sigstack_top(usize::MAX - SIGSTACK_SIZE), usize::MAX);
}

#[test]
fn verify_host_aborts_on_the_wrong_system() {
    assert_eq!(relibc_verify_host(false), StartAction::Abort);
    assert_eq!(relibc_verify_host(true), StartAction::InitTls);
}

fn run(mut startup: Startup, status: i32) -> Vec<StartAction> {
    let mut actions = vec![startup.pending];
    loop {
        let event = match startup.pending {
            StartAction::VerifyHost => StartEvent::HostVerified(true),
            StartAction::Main => StartEvent::MainReturned(status),
            StartAction::Abort | StartAction::Exit(_) => return actions,
            _ => StartEvent::Done,
        };
        assert!(startup.accepts_event(event));
        let next = relibc_start(&mut startup, event);
        assert_eq!(next, startup.pending);
        actions.push(next);
    }
}

#[test]
fn start_runs_every_step_in_order() {
    let actions = run(Startup::new(2, 3, true), 7);
    assert_eq!(
        actions,
        vec![
            StartAction::VerifyHost,
            StartAction::InitTls,
            StartAction::AllocInit,
            StartAction::Publish,
            StartAction::SetupSigstack,
            StartAction::InitArray,
            StartAction::Preinit(0),
            StartAction::Preinit(1),
            StartAction::Init,
            StartAction::InitEntry(0),
            StartAction::InitEntry(1),
            StartAction::InitEntry(2),
            StartAction::Main,
            StartAction::Exit(7),
        ]
    );
}

#[test]
fn start_without_constructors_or_signal_stack() {
    let actions = run(Startup::new(0, 0, false), 0);
    assert_eq!(
        actions,
        vec![
            StartAction::VerifyHost,
            StartAction::InitTls,
            StartAction::AllocInit,
            StartAction::Publish,
            StartAction::InitArray,
            StartAction::Init,
            StartAction::Main,
            StartAction::Exit(0),
        ]
    );
}

#[test]
fn start_calls_each_constructor_once() {
    let actions = run(Startup::new(4, 5, false), 0);
    for i in 0..4 {
        assert_eq!(actions.iter().filter(|a| **a == StartAction::Preinit(i)).count(), 1);
    }
    for i in 0..5 {
        assert_eq!(actions.iter().filter(|a| **a == StartAction::InitEntry(i)).count(), 1);
    }
    assert_eq!(actions.iter().filter(|a| **a == StartAction::Init).count(), 1);
    assert_eq!(actions.iter().filter(|a| **a == StartAction::InitArray).count(), 1);
    assert_eq!(actions.iter().filter(|a| **a == StartAction::Main).count(), 1);
    assert_eq!(actions.len(), 4 + 1 + 4 + 1 + 5 + 2);
}

#[test]
fn start_aborts_on_the_wrong_host() {
    let mut startup = Startup::new(1, 1, true);
    assert_eq!(startup.pending, StartAction::VerifyHost);
    assert_eq!(relibc_start(&mut startup, StartEvent::HostVerified(false)), StartAction::Abort);
    assert!(!startup.accepts_event(StartEvent::Done));
    assert!(!startup.accepts_event(StartEvent::HostVerified(true)));
    assert!(!startup.accepts_event(StartEvent::MainReturned(0)));
}

#[test]
fn start_exits_with_the_status_of_main() {
    let actions = run(Startup::new(0, 1, false), -3);
    assert_eq!(actions.last(), Some(&StartAction::Exit(-3)));
}

#[test]
fn start_accepts_only_the_outcome_of_the_pending_action() {
    let mut startup = Startup::new(0, 0, false);
    assert!(!startup.accepts_event(StartEvent::Done));
    assert!(!startup.accepts_event(StartEvent::MainReturned(0)));
    assert!(startup.accepts_event(StartEvent::HostVerified(true)));
    relibc_start(&mut startup, StartEvent::HostVerified(true));
    assert!(startup.accepts_event(StartEvent::Done));
    assert!(!startup.accepts_event(StartEvent::HostVerified(true)));
    startup.pending = StartAction::Main;
    assert!(startup.accepts_event(StartEvent::MainReturned(1)));
    assert!(!startup.accepts_event(StartEvent::Done));
    startup.pending = StartAction::Exit(1);
    assert!(!startup.accepts_event(StartEvent::Done));
}
