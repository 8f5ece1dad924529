use vstd::prelude::*;

verus! {

/// One stage of running a test, in the order they happen.
#[derive(Debug, Clone, Copy, PartialEq, Eq, Structural)]
pub enum Stage {
    /// Tell the orchestrator that setup begins; this starts its hang timer.
    RegisterSetup,
    /// Run the test's setup, which builds its network.
    Setup,
    /// Tell the orchestrator that setup finished.
    RegisterSetupCompletion,
    /// Tell the orchestrator that execution begins.
    RegisterExecution,
    /// Run the test against the network that setup built.
    Run,
}

/// Where a test run stands: a stage still to perform, or finished, either
/// successfully or with the stage that failed.
#[derive(Debug, Clone, Copy, PartialEq, Eq, Structural)]
pub enum Lifecycle {
    Pending(Stage),
    Succeeded,
    Failed(Stage),
}

/// The stage after `s`, or `None` after the last.
pub open spec fn following(s: Stage) -> Option<Stage> {
    match s {
        Stage::RegisterSetup => Some(Stage::Setup),
        Stage::Setup => Some(Stage::RegisterSetupCompletion),
        Stage::RegisterSetupCompletion => Some(Stage::RegisterExecution),
        Stage::RegisterExecution => Some(Stage::Run),
        Stage::Run => None,
    }
}

/// The state after the pending stage of `l` was performed, successfully or not.
/// A finished run does not change.
pub open spec fn step(l: Lifecycle, succeeded: bool) -> Lifecycle {
    match l {
        Lifecycle::Pending(s) => if !succeeded {
            Lifecycle::Failed(s)
        } else {
            match following(s) {
                Some(n) => Lifecycle::Pending(n),
                None => Lifecycle::Succeeded,
            }
        },
        _ => l,
    }
}

/// The stages performed from `l` on when the stages performed have the
/// outcomes `outcomes`, in order (`true` for success).
pub open spec fn performed(l: Lifecycle, outcomes: Seq<bool>) -> Seq<Stage>
    decreases outcomes.len(),
{
    if outcomes.len() == 0 {
        seq![]
    } else {
        match l {
            Lifecycle::Pending(s) => seq![s] + performed(step(l, outcomes[0]), outcomes.drop_first()),
            _ => seq![],
        }
    }
}

/// The state reached from `l` after those outcomes.
pub open spec fn reached(l: Lifecycle, outcomes: Seq<bool>) -> Lifecycle
    decreases outcomes.len(),
{
    if outcomes.len() == 0 {
        l
    } else {
        reached(step(l, outcomes[0]), outcomes.drop_first())
    }
}

/// Every stage, in the order they are performed.
pub open spec fn all_stages() -> Seq<Stage> {
    seq![
        Stage::RegisterSetup,
        Stage::Setup,
        Stage::RegisterSetupCompletion,
        Stage::RegisterExecution,
        Stage::Run,
    ]
}

/// The position of `s` in `all_stages()`.
pub open spec fn stage_index(s: Stage) -> int {
    match s {
        Stage::RegisterSetup => 0,
        Stage::Setup => 1,
        Stage::RegisterSetupCompletion => 2,
        Stage::RegisterExecution => 3,
        Stage::Run => 4,
    }
}

impl Lifecycle {
    /// A run that has not begun: its first stage is to register setup.
    pub fn start() -> (r: Lifecycle)
        ensures
            r == Lifecycle::Pending(Stage::RegisterSetup),
    {
        Lifecycle::Pending(Stage::RegisterSetup)
    }

    /// The stage to perform next, or `None` once the run is finished.
    pub fn stage_to_perform(&self) -> (r: Option<Stage>)
        ensures
            r == (match *self {
                Lifecycle::Pending(s) => Some(s),
                _ => None::<Stage>,
            }),
    {
        match *self {
            Lifecycle::Pending(s) => Some(s),
            _ => None,
        }
    }

    /// The state after the pending stage was performed with outcome `succeeded`.
    pub fn advance(self, succeeded: bool) -> (r: Lifecycle)
        ensures
            r == step(self, succeeded),
    {
        match self {
            Lifecycle::Pending(s) => if !succeeded {
                Lifecycle::Failed(s)
            } else {
                match s {
                    Stage::RegisterSetup => Lifecycle::Pending(Stage::Setup),
                    Stage::Setup => Lifecycle::Pending(Stage::RegisterSetupCompletion),
                    Stage::RegisterSetupCompletion => Lifecycle::Pending(Stage::RegisterExecution),
                    Stage::RegisterExecution => Lifecycle::Pending(Stage::Run),
                    Stage::Run => Lifecycle::Succeeded,
                }
            },
            _ => self,
        }
    }

    /// The result of the run once it is finished: `Ok` when every stage
    /// succeeded, else the stage that failed; `None` while a stage is pending.
    pub fn outcome(&self) -> (r: Option<Result<(), Stage>>)
        ensures
            r == (match *self {
                Lifecycle::Pending(_) => None,
                Lifecycle::Succeeded => Some(Ok::<(), Stage>(())),
                Lifecycle::Failed(s) => Some(Err::<(), Stage>(s)),
            }),
    {
        match *self {
            Lifecycle::Pending(_) => None,
            Lifecycle::Succeeded => Some(Ok(())),
            Lifecycle::Failed(s) => Some(Err(s)),
        }
    }
}

/// A finished run stays as it is and performs nothing more.
pub proof fn lemma_finished_is_final(l: Lifecycle, outcomes: Seq<bool>)
    requires
        !(l is Pending),
    ensures
        reached(l, outcomes) == l,
        performed(l, outcomes) == Seq::<Stage>::empty(),
    decreases outcomes.len(),
{
    if outcomes.len() > 0 {
        lemma_finished_is_final(step(l, outcomes[0]), outcomes.drop_first());
    }
}

proof fn lemma_performed_from(s: Stage, outcomes: Seq<bool>)
    ensures
        stage_index(s) + performed(Lifecycle::Pending(s), outcomes).len() <= 5,
        performed(Lifecycle::Pending(s), outcomes) == all_stages().subrange(
            stage_index(s),
            stage_index(s) + performed(Lifecycle::Pending(s), outcomes).len(),
        ),
    decreases outcomes.len(),
{
    let p = performed(Lifecycle::Pending(s), outcomes);
    if outcomes.len() > 0 {
        let next = step(Lifecycle::Pending(s), outcomes[0]);
        let rest = outcomes.drop_first();
        match next {
            Lifecycle::Pending(n) => {
                lemma_performed_from(n, rest);
                assert(stage_index(n) == stage_index(s) + 1);
            },
            _ => {
                lemma_finished_is_final(next, rest);
            },
        }
        assert(p =~= all_stages().subrange(stage_index(s), stage_index(s) + p.len()));
    } else {
        assert(p =~= all_stages().subrange(stage_index(s), stage_index(s)));
    }
}

/// Whatever the outcomes, the stages performed in a run are the first stages
/// of the fixed order: none is skipped, repeated or taken out of order.
pub proof fn lemma_stages_in_order(outcomes: Seq<bool>)
    ensures
        performed(Lifecycle::Pending(Stage::RegisterSetup), outcomes).len() <= 5,
        performed(Lifecycle::Pending(Stage::RegisterSetup), outcomes) == all_stages().subrange(
            0,
            performed(Lifecycle::Pending(Stage::RegisterSetup), outcomes).len() as int,
        ),
{
    lemma_performed_from(Stage::RegisterSetup, outcomes);
}

/// When setup itself fails, after its registration succeeded, the run fails at
/// the setup stage, and the test's run stage is never performed: only the
/// setup registration and setup are.
pub proof fn lemma_setup_failure_skips_run(outcomes: Seq<bool>)
    requires
        outcomes.len() >= 2,
        outcomes[0],
        !outcomes[1],
    ensures
        reached(Lifecycle::Pending(Stage::RegisterSetup), outcomes) == Lifecycle::Failed(Stage::Setup),
        performed(Lifecycle::Pending(Stage::RegisterSetup), outcomes) == seq![
            Stage::RegisterSetup,
            Stage::Setup,
        ],
        !performed(Lifecycle::Pending(Stage::RegisterSetup), outcomes).contains(Stage::Run),
{
    let rest = outcomes.drop_first().drop_first();
    lemma_finished_is_final(Lifecycle::Failed(Stage::Setup), rest);
    assert(outcomes.drop_first()[0] == outcomes[1]);
    let o1 = outcomes.drop_first();
    assert(reached(Lifecycle::Pending(Stage::Setup), o1) == reached(Lifecycle::Failed(Stage::Setup), rest));
    assert(reached(Lifecycle::Pending(Stage::RegisterSetup), outcomes) == reached(Lifecycle::Pending(Stage::Setup), o1));
    assert(performed(Lifecycle::Pending(Stage::Setup), o1) =~= seq![Stage::Setup]);
    let p = performed(Lifecycle::Pending(Stage::RegisterSetup), outcomes);
    assert(p =~= seq![Stage::RegisterSetup, Stage::Setup]);
    assert(p[0] != Stage::Run && p[1] != Stage::Run);
}

/// When every stage before the run succeeds and the run fails, the run fails
/// at the run stage, after the setup registration, setup, the setup-completion
/// registration and the execution registration, each performed once and in
/// that order.
pub proof fn lemma_run_failure_after_all_checkpoints(outcomes: Seq<bool>)
    requires
        outcomes.len() >= 5,
        outcomes[0],
        outcomes[1],
        outcomes[2],
        outcomes[3],
        !outcomes[4],
    ensures
        reached(Lifecycle::Pending(Stage::RegisterSetup), outcomes) == Lifecycle::Failed(Stage::Run),
        performed(Lifecycle::Pending(Stage::RegisterSetup), outcomes) == seq![
            Stage::RegisterSetup,
            Stage::Setup,
            Stage::RegisterSetupCompletion,
            Stage::RegisterExecution,
            Stage::Run,
        ],
{
    let o1 = outcomes.drop_first();
    let o2 = o1.drop_first();
    let o3 = o2.drop_first();
    let o4 = o3.drop_first();
    let o5 = o4.drop_first();
    assert(o1[0] == outcomes[1] && o2[0] == outcomes[2] && o3[0] == outcomes[3] && o4[0] == outcomes[4]);
    lemma_finished_is_final(Lifecycle::Failed(Stage::Run), o5);
    assert(reached(Lifecycle::Pending(Stage::Run), o4) == Lifecycle::Failed(Stage::Run));
    assert(reached(Lifecycle::Pending(Stage::RegisterExecution), o3) == Lifecycle::Failed(Stage::Run));
    assert(reached(Lifecycle::Pending(Stage::RegisterSetupCompletion), o2) == Lifecycle::Failed(Stage::Run));
    assert(reached(Lifecycle::Pending(Stage::Setup), o1) == Lifecycle::Failed(Stage::Run));
    assert(performed(Lifecycle::Pending(Stage::Run), o4) =~= seq![Stage::Run]);
    assert(performed(Lifecycle::Pending(Stage::RegisterExecution), o3) =~= seq![
        Stage::RegisterExecution,
        Stage::Run,
    ]);
    assert(performed(Lifecycle::Pending(Stage::RegisterSetupCompletion), o2) =~= seq![
        Stage::RegisterSetupCompletion,
        Stage::RegisterExecution,
        Stage::Run,
    ]);
    assert(performed(Lifecycle::Pending(Stage::Setup), o1) =~= seq![
        Stage::Setup,
        Stage::RegisterSetupCompletion,
        Stage::RegisterExecution,
        Stage::Run,
    ]);
    assert(performed(Lifecycle::Pending(Stage::RegisterSetup), outcomes) =~= seq![
        Stage::RegisterSetup,
        Stage::Setup,
        Stage::RegisterSetupCompletion,
        Stage::RegisterExecution,
        Stage::Run,
    ]);
}

} // verus!
