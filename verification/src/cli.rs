//! The tool's command-line flags and the fixed order in which the stages they
//! select are run.

use vstd::prelude::*;

verus! {

/// The three independent switches: each stage is gated by its own flag, all
/// combinations are legal, and none is on by default.
#[derive(Debug, Clone, PartialEq, Eq, Structural)]
pub struct Cli {
    pub init: bool,
    pub add_remotes: bool,
    pub push: bool,
}

impl Default for Cli {
    /// All flags off.
    fn default() -> (r: Self)
        ensures
            !r.init && !r.add_remotes && !r.push,
    {
        Cli { init: false, add_remotes: false, push: false }
    }
}

/// The workflow stages, in the order the tool runs them.
#[derive(Debug, Clone, Copy, PartialEq, Eq, Structural)]
pub enum Stage {
    Init,
    AddRemotes,
    Push,
}

/// The position of a stage in the fixed execution order.
pub open spec fn stage_rank(s: Stage) -> int {
    match s {
        Stage::Init => 0,
        Stage::AddRemotes => 1,
        Stage::Push => 2,
    }
}

/// The stages a given set of flags selects, in the fixed execution order
/// init, add-remotes, push — whatever order the flags stood in on the command
/// line.
pub open spec fn spec_stages(cli: Cli) -> Seq<Stage> {
    (if cli.init {
        seq![Stage::Init]
    } else {
        Seq::<Stage>::empty()
    }) + (if cli.add_remotes {
        seq![Stage::AddRemotes]
    } else {
        Seq::<Stage>::empty()
    }) + (if cli.push {
        seq![Stage::Push]
    } else {
        Seq::<Stage>::empty()
    })
}

/// The stages to run for these flags, in the fixed execution order.
pub fn stages_of(cli: &Cli) -> (r: Vec<Stage>)
    ensures
        r@ == spec_stages(*cli),
{
    let mut r: Vec<Stage> = Vec::new();
    if cli.init {
        r.push(Stage::Init);
    }
    if cli.add_remotes {
        r.push(Stage::AddRemotes);
    }
    if cli.push {
        r.push(Stage::Push);
    }
    proof {
        assert(r@ =~= spec_stages(*cli));
    }
    r
}

/// Law: for every flag combination, the selected stages stand in the fixed
/// order init before add-remotes before push, and a stage is selected exactly
/// when its flag is set.
pub proof fn lemma_stages_fixed_order(cli: Cli)
    ensures
        forall|a: int, b: int|
            0 <= a < b < spec_stages(cli).len() ==> stage_rank(spec_stages(cli)[a]) < stage_rank(
                spec_stages(cli)[b],
            ),
        spec_stages(cli).contains(Stage::Init) <==> cli.init,
        spec_stages(cli).contains(Stage::AddRemotes) <==> cli.add_remotes,
        spec_stages(cli).contains(Stage::Push) <==> cli.push,
{
    let s = spec_stages(cli);
    assert forall|a: int, b: int| 0 <= a < b < s.len() implies stage_rank(s[a]) < stage_rank(
        s[b],
    ) by {
        assert(stage_rank(s[a]) < stage_rank(s[b]));
    }
    if cli.init {
        assert(s[0] == Stage::Init);
    }
    if cli.add_remotes {
        if cli.init {
            assert(s[1] == Stage::AddRemotes);
        } else {
            assert(s[0] == Stage::AddRemotes);
        }
    }
    if cli.push {
        assert(s[s.len() - 1] == Stage::Push);
    }
    if s.contains(Stage::Init) {
        assert(cli.init);
    }
    if s.contains(Stage::AddRemotes) {
        assert(cli.add_remotes);
    }
    if s.contains(Stage::Push) {
        assert(cli.push);
    }
}

} // verus!
