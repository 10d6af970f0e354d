use myux::session::{Handle, SessionGuard, SpawnAction, SpawnPlan, SpawnStep};

/// A stand-in for the OS facility that counts what it hands out and takes
/// back, and fails the `fail_at`-th step (1-based) if asked to.
struct Fake {
    fail_at: Option<usize>,
    steps_run: usize,
    acquired: Vec<Handle>,
    released: Vec<Handle>,
}

impl Fake {
    fn run(&mut self, step: SpawnStep) -> bool {
        self.steps_run += 1;
        if self.fail_at == Some(self.steps_run) {
            return false;
        }
        let got: Vec<Handle> = match step {
            SpawnStep::InputPipe => vec![Handle::InputRead, Handle::InputWrite],
            SpawnStep::OutputPipe => vec![Handle::OutputRead, Handle::OutputWrite],
            SpawnStep::CreateConsole => vec![Handle::Console],
            SpawnStep::AllocAttrList => vec![Handle::AttrMemory],
            SpawnStep::InitAttrList => vec![Handle::AttrList],
            SpawnStep::AttachConsole => vec![],
            SpawnStep::CreateProcess => vec![Handle::Process, Handle::Thread],
        };
        self.acquired.extend(got);
        true
    }

    fn release(&mut self, h: Handle) {
        assert!(self.acquired.contains(&h), "released {:?}, never acquired", h);
        assert!(!self.released.contains(&h), "released {:?} twice", h);
        self.released.push(h);
    }
}

/// Drives a spawn attempt to its end; returns whether it finished.
fn drive(fake: &mut Fake) -> bool {
    let mut plan = SpawnPlan::new();
    for _ in 0..100 {
        match plan.next_action() {
            SpawnAction::Run(step) => {
                let ok = fake.run(step);
                plan.record_step(ok);
            }
            SpawnAction::Release(h) => {
                fake.release(h);
                plan.record_release();
            }
            SpawnAction::Finish => return true,
            SpawnAction::Abort => return false,
        }
    }
    panic!("spawn attempt did not end");
}

#[test]
fn failed_spawn_releases_everything_acquired() {
    for k in 1..=7 {
        let mut fake = Fake { fail_at: Some(k), steps_run: 0, acquired: vec![], released: vec![] };
        assert!(!drive(&mut fake), "step {} should fail", k);
        assert_eq!(fake.steps_run, k);
        assert_eq!(fake.released.len(), fake.acquired.len(), "failing at step {}", k);
        for h in fake.acquired.iter() {
            assert!(fake.released.contains(h));
        }
    }
}

#[test]
fn failed_spawn_acquisition_counts() {
    let expected = [0usize, 2, 4, 5, 6, 7, 7];
    for k in 1..=7 {
        let mut fake = Fake { fail_at: Some(k), steps_run: 0, acquired: vec![], released: vec![] };
        drive(&mut fake);
        assert_eq!(fake.acquired.len(), expected[k - 1]);
        assert_eq!(fake.released.len(), expected[k - 1]);
    }
}

#[test]
fn failed_process_creation_unwinds_newest_first() {
    let mut fake = Fake { fail_at: Some(7), steps_run: 0, acquired: vec![], released: vec![] };
    drive(&mut fake);
    assert_eq!(
        fake.released,
        vec![
            Handle::InputRead,
            Handle::OutputWrite,
            Handle::AttrList,
            Handle::AttrMemory,
            Handle::Console,
            Handle::OutputRead,
            Handle::InputWrite,
        ]
    );
}

#[test]
fn failed_second_pipe_releases_first_pipe() {
    let mut fake = Fake { fail_at: Some(2), steps_run: 0, acquired: vec![], released: vec![] };
    drive(&mut fake);
    assert_eq!(fake.released, vec![Handle::InputWrite, Handle::InputRead]);
}

#[test]
fn successful_spawn_keeps_only_session_handles() {
    let mut fake = Fake { fail_at: None, steps_run: 0, acquired: vec![], released: vec![] };
    assert!(drive(&mut fake));
    assert_eq!(fake.steps_run, 7);
    assert_eq!(
        fake.released,
        vec![Handle::InputRead, Handle::OutputWrite, Handle::AttrList, Handle::AttrMemory]
    );
    let kept: Vec<Handle> =
        fake.acquired.iter().copied().filter(|h| !fake.released.contains(h)).collect();
    assert_eq!(
        kept,
        vec![Handle::InputWrite, Handle::OutputRead, Handle::Console, Handle::Process, Handle::Thread]
    );
}

#[test]
fn fresh_plan_starts_with_input_pipe() {
    let plan = SpawnPlan::new();
    assert_eq!(plan.next_action(), SpawnAction::Run(SpawnStep::InputPipe));
}

#[test]
fn teardown_releases_console_first_and_only_once() {
    let mut guard = SessionGuard::new();
    assert_eq!(
        guard.teardown(),
        vec![Handle::Console, Handle::InputWrite, Handle::OutputRead, Handle::Process, Handle::Thread]
    );
    assert_eq!(guard.teardown(), vec![]);
    assert_eq!(guard.teardown(), vec![]);
}
