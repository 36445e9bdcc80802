//! What every step of every command keeps, and where commands end.

use crate::commands::{dispatch_outcome, idle, set_option_outcome, subcommand_named};
use crate::goals::{close_next, close_window, pane_call, window_panes};
use crate::laws::pairing::{
    law_advancing_keeps_order, law_bind_keeps_ahead, law_bind_keeps_pairs, law_env_stays_listed,
    law_forget_keeps_the_rest, law_giving_ids_keeps_order, law_ids_stay_backed,
};
use crate::log::notice_text;
use crate::options::{env_words, option_words};
use crate::panes::{EnvView, WezPane};
use crate::paths::PathStyle;
use crate::resume::{
    bash_turn, listed_state, new_pane_id, panes_outcome, run_outcome, shown_panes, write_turn,
};
use crate::state::{tmux_id, StateView};
use crate::turn::{
    Effect, EffectView, Goal, GoalView, Next, NextView, OnPanes, OnPanesView, OnRun, OnRunView,
    OnWrite, Subcommand,
};
use vstd::prelude::*;

verus! {

// -------------------------------------------------------------- ids lead apart

proof fn lemma_current_stays_backed(env: EnvView, s: StateView)
    requires
        s.backed(),
    ensures
        env.current_state(s).backed(),
{
}

proof fn lemma_listing_stays_backed(s: StateView, panes: Seq<WezPane>)
    requires
        s.backed(),
    ensures
        listed_state(s, panes).backed(),
    decreases panes.len(),
{
    if panes.len() > 0 {
        lemma_listing_stays_backed(s, panes.drop_last());
    }
}

/// The first turn of any invocation keeps every id leading to a pane that has
/// that id.
pub proof fn law_dispatch_keeps_ids_backed(
    name: Seq<char>,
    words: Seq<Seq<char>>,
    env: EnvView,
    s: StateView,
)
    requires
        s.backed(),
    ensures
        dispatch_outcome(name, words, env, s).state.backed(),
{
    lemma_current_stays_backed(env, s);
}

/// A turn that goes on with the live panes keeps every id leading to a pane
/// that has that id.
pub proof fn law_panes_keep_ids_backed(
    task: OnPanesView,
    panes: Seq<WezPane>,
    env: EnvView,
    s: StateView,
)
    requires
        s.backed(),
    ensures
        panes_outcome(task, panes, env, s).state.backed(),
{
    lemma_current_stays_backed(env, s);
    if let OnPanes::Listing { target, format } = task {
        lemma_listing_stays_backed(env.current_state(s), shown_panes(target, panes));
    }
}

/// A turn that goes on after a WezTerm call keeps every id leading to a pane
/// that has that id.
pub proof fn law_run_keeps_ids_backed(task: OnRunView, stdout: Seq<char>, exit: i32, s: StateView)
    requires
        s.backed(),
    ensures
        run_outcome(task, stdout, exit, s).state.backed(),
{
}

// ----------------------------------------------------------- pairing in order

impl StateView {
    /// The pairing and the variables are in order.
    pub open spec fn in_order(self) -> bool {
        self.paired() && self.ahead() && self.env_listed()
    }
}

impl EnvView {
    /// `TMUX_PANE` does not hold an id that is still to be given out.
    pub open spec fn claims_no_future(self, s: StateView) -> bool {
        match self.claimed_id() {
            Some(t) => forall|n: u64| s.next_pane <= n ==> t != #[trigger] tmux_id(n),
            None => true,
        }
    }
}

proof fn lemma_current_keeps_order(env: EnvView, s: StateView)
    requires
        s.in_order(),
        env.claims_no_future(s),
        s.next_pane < u64::MAX,
    ensures
        env.current_state(s).in_order(),
        env.current_state(s).next_pane <= s.next_pane + 1,
{
    law_giving_ids_keeps_order(s, 0);
    match (env.real_pane(), env.claimed_id()) {
        (Some(w), Some(t)) => {
            law_bind_keeps_pairs(s, t, w);
            law_bind_keeps_ahead(s, t, w);
        },
        (Some(w), None) => {
            law_giving_ids_keeps_order(s, w);
        },
        _ => {},
    }
}

proof fn lemma_listing_keeps_order(s: StateView, panes: Seq<WezPane>)
    requires
        s.in_order(),
        s.next_pane + panes.len() < u64::MAX,
    ensures
        listed_state(s, panes).in_order(),
        listed_state(s, panes).next_pane <= s.next_pane + panes.len(),
    decreases panes.len(),
{
    if panes.len() > 0 {
        lemma_listing_keeps_order(s, panes.drop_last());
        law_giving_ids_keeps_order(
            listed_state(s, panes.drop_last()),
            panes.last().pane_id,
        );
    }
}

/// The first turn of an invocation keeps the pairing and the variables in
/// order.
pub proof fn law_dispatch_keeps_order(
    name: Seq<char>,
    words: Seq<Seq<char>>,
    env: EnvView,
    s: StateView,
)
    requires
        s.in_order(),
        env.claims_no_future(s),
        s.next_pane < u64::MAX,
    ensures
        dispatch_outcome(name, words, env, s).state.in_order(),
{
    lemma_current_keeps_order(env, s);
    let given = env_words(words);
    if given.len() >= 2 {
        law_env_stays_listed(s, given[0], given[1]);
    }
}

/// A turn that goes on with the live panes keeps the pairing and the variables
/// in order.
pub proof fn law_panes_keep_order(
    task: OnPanesView,
    panes: Seq<WezPane>,
    env: EnvView,
    s: StateView,
)
    requires
        s.in_order(),
        env.claims_no_future(s),
        s.next_pane + panes.len() + 1 < u64::MAX,
    ensures
        panes_outcome(task, panes, env, s).state.in_order(),
{
    lemma_current_keeps_order(env, s);
    match task {
        OnPanes::NewPane { format } => {
            law_giving_ids_keeps_order(s, 0);
            if panes.len() > 0 {
                law_giving_ids_keeps_order(s, panes[0].pane_id);
            }
        },
        OnPanes::Listing { target, format } => {
            let shown = shown_panes(target, panes);
            assert(shown.len() <= panes.len()) by {
                broadcast use Seq::lemma_filter_len;

            }
            lemma_listing_keeps_order(env.current_state(s), shown);
        },
        _ => {},
    }
}

/// A turn that goes on after a WezTerm call keeps the pairing and the variables
/// in order.
pub proof fn law_run_keeps_order(task: OnRunView, stdout: Seq<char>, exit: i32, s: StateView)
    requires
        s.in_order(),
        s.next_pane < u64::MAX,
    ensures
        run_outcome(task, stdout, exit, s).state.in_order(),
{
    match task {
        OnRun::Split { print, format } => {
            law_advancing_keeps_order(s);
            match new_pane_id(stdout) {
                Some(id) => law_giving_ids_keeps_order(s, id),
                None => {},
            }
        },
        OnRun::Killed { pane } => law_forget_keeps_the_rest(s, pane),
        OnRun::KilledInWindow { pane, rest } => law_forget_keeps_the_rest(s, pane),
        _ => {},
    }
}

// ------------------------------------------------------------------ exit codes

/// An invocation that ends in its first turn ends with 0, or with 1 if it is
/// `show-environment` with a variable that is not set.
pub proof fn law_dispatch_exit_codes(
    name: Seq<char>,
    words: Seq<Seq<char>>,
    env: EnvView,
    s: StateView,
)
    ensures
        dispatch_outcome(name, words, env, s).turn.next matches Next::Exit(code) ==> code == (
        if subcommand_named(name) == Subcommand::ShowEnvironment && env_words(words).len() > 0
            && !s.env_vars.contains_key(env_words(words)[0]) {
            1int
        } else {
            0
        }),
{
}

/// An invocation that ends once the live panes are known ends with 0.
pub proof fn law_panes_exit_zero(
    task: OnPanesView,
    panes: Seq<WezPane>,
    env: EnvView,
    s: StateView,
)
    ensures
        panes_outcome(task, panes, env, s).turn.next matches Next::Exit(code) ==> code == 0,
{
}

/// An invocation that ends after a WezTerm call ends with 0, even if the call
/// failed.
pub proof fn law_run_exits_zero(task: OnRunView, stdout: Seq<char>, exit: i32, s: StateView)
    ensures
        run_outcome(task, stdout, exit, s).turn.next matches Next::Exit(code) ==> code == 0,
{
}

/// An invocation that ends after a launcher file was written, or could not be,
/// ends with 0.
pub proof fn law_write_exits_zero(task: OnWrite, written: bool, style: PathStyle, dir: Seq<char>)
    ensures
        write_turn(task, written, style, dir).next matches Next::Exit(code) ==> code == 0,
{
}

// -------------------------------------------------------------------- progress

/// How many kinds of questions a goal may still ask.
pub open spec fn goal_stage(goal: GoalView) -> nat {
    match goal {
        Goal::Split { .. } => 2,
        Goal::SetPolicy { .. } => 0,
        Goal::Respawn { .. } => 4,
        _ => 1,
    }
}

/// How many kinds of questions a command may still ask.
pub open spec fn stage(next: NextView) -> nat {
    match next {
        Next::Exit(code) => 0,
        Next::Run(args, OnRun::Split { .. }) => 2,
        Next::Run(args, task) => 1,
        Next::Write { name, content, task: OnWrite::Script { .. } } => 4,
        Next::FindBash { pane } => 3,
        Next::Write { name, content, task: OnWrite::Wrapper { .. } } => 2,
        Next::List(OnPanes::Target { target, goal }) => 1 + goal_stage(goal),
        Next::List(OnPanes::Window { .. }) => 3,
        Next::List(task) => 1,
    }
}

/// How many more panes of a window are to be closed.
pub open spec fn left_to_close(next: NextView) -> nat {
    match next {
        Next::Run(args, OnRun::KilledInWindow { pane, rest }) => rest.len() + 1,
        _ => 0,
    }
}

/// Whether `after` is closer to the end of a command than `before`. There is no
/// endless row of questions each closer than the one before it.
pub open spec fn closer(after: NextView, before: NextView) -> bool {
    stage(after) < stage(before) || (stage(after) == stage(before) && left_to_close(after)
        < left_to_close(before))
}

/// The live panes bring a command closer to its end.
pub proof fn law_panes_make_progress(
    task: OnPanesView,
    panes: Seq<WezPane>,
    env: EnvView,
    s: StateView,
)
    ensures
        closer(panes_outcome(task, panes, env, s).turn.next, Next::List(task)),
{
}

/// A WezTerm call brings a command closer to its end.
pub proof fn law_run_makes_progress(
    args: Seq<Seq<char>>,
    task: OnRunView,
    stdout: Seq<char>,
    exit: i32,
    s: StateView,
)
    ensures
        closer(run_outcome(task, stdout, exit, s).turn.next, Next::Run(args, task)),
{
}

/// A launcher file, written or not, brings a command closer to its end.
pub proof fn law_write_makes_progress(
    name: Seq<char>,
    content: Seq<char>,
    task: OnWrite,
    written: bool,
    style: PathStyle,
    dir: Seq<char>,
)
    ensures
        closer(
            write_turn(task, written, style, dir).next,
            Next::Write { name, content, task },
        ),
{
}

/// The search for bash brings a command closer to its end.
pub proof fn law_bash_makes_progress(
    pane: u64,
    bash: Option<Seq<char>>,
    style: PathStyle,
    dir: Seq<char>,
)
    ensures
        closer(bash_turn(pane, bash, style, dir).next, Next::FindBash { pane }),
{
}

// ---------------------------------------------------------------------- saving

/// A first turn that changes the variables or the policies saves them.
pub proof fn law_stored_values_are_saved(
    name: Seq<char>,
    words: Seq<Seq<char>>,
    env: EnvView,
    s: StateView,
)
    requires
        dispatch_outcome(name, words, env, s).state.env_vars != s.env_vars || dispatch_outcome(
            name,
            words,
            env,
            s,
        ).state.remain_on_exit != s.remain_on_exit,
    ensures
        dispatch_outcome(name, words, env, s).turn.effects.contains(EffectView::Save),
{
    assert(dispatch_outcome(name, words, env, s).turn.effects[1] == EffectView::Save);
}

/// A turn that shows panes saves the ids it shows, and ends the command. So does
/// one that changes the policies.
pub proof fn law_shown_ids_are_saved(
    task: OnPanesView,
    panes: Seq<WezPane>,
    env: EnvView,
    s: StateView,
)
    requires
        panes_outcome(task, panes, env, s).state.remain_on_exit != s.remain_on_exit || exists|
            line: Seq<char>,
        |
            panes_outcome(task, panes, env, s).turn.effects.contains(EffectView::Line(line)),
    ensures
        panes_outcome(task, panes, env, s).turn.effects.last() == EffectView::Save,
        panes_outcome(task, panes, env, s).turn.next == NextView::Exit(0),
{
}

/// The id of a pane that a split made is saved at once, or is shown next, which
/// saves it.
pub proof fn law_split_ids_are_saved(
    print: bool,
    format: Seq<char>,
    stdout: Seq<char>,
    exit: i32,
    s: StateView,
    panes: Seq<WezPane>,
    env: EnvView,
)
    ensures
        ({
            let split = run_outcome(OnRun::Split { print, format }, stdout, exit, s);
            match split.turn.next {
                Next::List(task) => {
                    let shown = panes_outcome(task, panes, env, split.state);
                    &&& shown.state == split.state
                    &&& shown.turn.effects.last() == EffectView::Save
                },
                _ => split.turn.effects.last() == EffectView::Save,
            }
        }),
{
}

// ------------------------------------------------------- unknown and accepted

/// Whether an effect reaches the caller's output or the saved state.
pub open spec fn is_visible(effect: EffectView) -> bool {
    match effect {
        Effect::Print(text) => true,
        Effect::Line(text) => true,
        Effect::Save => true,
        _ => false,
    }
}

/// A subcommand that is not known, or is accepted as it is, ends at once with
/// 0. It asks nothing of WezTerm, prints nothing and changes nothing. Only an
/// unknown one leaves a hint for the user.
pub proof fn law_unknown_is_harmless(
    name: Seq<char>,
    words: Seq<Seq<char>>,
    env: EnvView,
    s: StateView,
)
    requires
        subcommand_named(name) == Subcommand::Unknown || subcommand_named(name)
            == Subcommand::Accepted,
    ensures
        dispatch_outcome(name, words, env, s).state == s,
        dispatch_outcome(name, words, env, s).turn.next == NextView::Exit(0),
        forall|i: int|
            0 <= i < dispatch_outcome(name, words, env, s).turn.effects.len() ==> !is_visible(
                #[trigger] dispatch_outcome(name, words, env, s).turn.effects[i],
            ),
        (exists|i: int|
            0 <= i < dispatch_outcome(name, words, env, s).turn.effects.len() && (
            #[trigger] dispatch_outcome(name, words, env, s).turn.effects[i]) is Warn)
            == (subcommand_named(name) == Subcommand::Unknown),
{
    let effects = dispatch_outcome(name, words, env, s).turn.effects;
    if subcommand_named(name) == Subcommand::Unknown {
        assert(effects[1] is Warn);
    }
}

/// An unknown subcommand leaves a line in the log that begins with
/// `UNHANDLED: `, an accepted one a line that says so.
pub proof fn law_unknown_is_logged(
    name: Seq<char>,
    words: Seq<Seq<char>>,
    env: EnvView,
    s: StateView,
    quoted: Seq<char>,
    quoted_args: Seq<char>,
)
    requires
        subcommand_named(name) == Subcommand::Unknown || subcommand_named(name)
            == Subcommand::Accepted,
    ensures
        dispatch_outcome(name, words, env, s).turn.effects[0] is Note,
        ({
            let notice = dispatch_outcome(name, words, env, s).turn.effects[0]->Note_0;
            let line = notice_text(notice, quoted, quoted_args);
            if subcommand_named(name) == Subcommand::Unknown {
                &&& "UNHANDLED: "@.is_prefix_of(line)
                &&& line == "UNHANDLED: subcommand="@ + quoted + " args="@ + quoted_args
            } else {
                line == "NOOP: "@ + name + " (known-accepted no-op)"@
            }
        }),
{
    reveal_strlit("UNHANDLED: ");
    reveal_strlit("UNHANDLED: subcommand=");
    if subcommand_named(name) == Subcommand::Unknown {
        let line = "UNHANDLED: subcommand="@ + quoted + " args="@ + quoted_args;
        assert forall|i: int| 0 <= i < "UNHANDLED: "@.len() implies "UNHANDLED: "@[i]
            == #[trigger] line[i] by {
            assert("UNHANDLED: "@[i] == "UNHANDLED: subcommand="@[i]);
        }
        assert(line.subrange(0, "UNHANDLED: "@.len() as int) =~= "UNHANDLED: "@);
    }
}

/// An option other than `remain-on-exit` is accepted without doing anything.
pub proof fn law_other_options_do_nothing(words: Seq<Seq<char>>, env: EnvView, s: StateView)
    requires
        option_words(words).len() == 0 || option_words(words)[0] != "remain-on-exit"@,
    ensures
        set_option_outcome(words, env, s) == idle(s),
{
}

// --------------------------------------------------------------- closing panes

/// A pane that was to be closed is forgotten and that is saved, whether or not
/// WezTerm could close it.
pub proof fn law_killed_panes_are_forgotten(
    pane: u64,
    stdout: Seq<char>,
    exit: i32,
    s: StateView,
)
    ensures
        run_outcome(OnRun::Killed { pane }, stdout, exit, s).state == s.forget(pane),
        run_outcome(OnRun::Killed { pane }, stdout, exit, s).turn.effects.contains(
            EffectView::Save,
        ),
        run_outcome(OnRun::Killed { pane }, stdout, exit, s).turn.next == NextView::Exit(0),
{
    let effects = run_outcome(OnRun::Killed { pane }, stdout, exit, s).turn.effects;
    assert(effects[1] == EffectView::Save);
}

/// The WezTerm calls made, and the state left, when a command that goes on with
/// `next` closes panes until it asks for something else. WezTerm exits with
/// `exits`, one after the other.
pub open spec fn closing(next: NextView, exits: Seq<i32>, s: StateView) -> (
    Seq<Seq<Seq<char>>>,
    StateView,
)
    decreases left_to_close(next),
{
    match next {
        Next::Run(args, OnRun::KilledInWindow { pane, rest }) => {
            let after = run_outcome(
                OnRun::KilledInWindow { pane, rest },
                Seq::empty(),
                exits[0],
                s,
            );
            let (calls, state) = closing(after.turn.next, exits.skip(1), after.state);
            (seq![args] + calls, state)
        },
        _ => (Seq::empty(), s),
    }
}

/// The state without any of the panes.
pub open spec fn without_panes(s: StateView, panes: Seq<WezPane>) -> StateView
    decreases panes.len(),
{
    if panes.len() == 0 {
        s
    } else {
        without_panes(s.forget(panes[0].pane_id), panes.skip(1))
    }
}

/// The calls that close the panes.
pub open spec fn kill_calls(panes: Seq<WezPane>) -> Seq<Seq<Seq<char>>> {
    panes.map_values(|p: WezPane| pane_call("kill-pane"@, p.pane_id))
}

proof fn lemma_closing(panes: Seq<WezPane>, exits: Seq<i32>, s: StateView)
    ensures
        closing(close_next(panes).1, exits, s) == (kill_calls(panes), without_panes(s, panes)),
    decreases panes.len(),
{
    if panes.len() > 0 {
        lemma_closing(panes.skip(1), exits.skip(1), s.forget(panes[0].pane_id));
        assert(seq![pane_call("kill-pane"@, panes[0].pane_id)] + kill_calls(panes.skip(1))
            =~= kill_calls(panes));
    } else {
        assert(kill_calls(panes) =~= Seq::<Seq<Seq<char>>>::empty());
    }
}

/// Closing a window closes the live panes of that window, each with one call
/// and in their order, and forgets them, whatever WezTerm answers.
pub proof fn law_window_closes_its_panes(
    s: StateView,
    window: u64,
    panes: Seq<WezPane>,
    exits: Seq<i32>,
)
    ensures
        closing(close_window(s, window, panes).turn.next, exits, s) == (
            kill_calls(window_panes(panes, window)),
            without_panes(s, window_panes(panes, window)),
        ),
        forall|p: WezPane| #[trigger]
            window_panes(panes, window).contains(p) <==> panes.contains(p) && p.window_id == window,
{
    lemma_closing(window_panes(panes, window), exits, s);
    lemma_window_panes(panes, window);
}

/// The panes of a window are those live panes that are in it.
pub proof fn lemma_window_panes(panes: Seq<WezPane>, window: u64)
    ensures
        forall|p: WezPane| #[trigger]
            window_panes(panes, window).contains(p) <==> panes.contains(p) && p.window_id == window,
{
    let wanted = |p: WezPane| p.window_id == window;
    assert forall|p: WezPane| #[trigger]
        window_panes(panes, window).contains(p) <==> panes.contains(p) && p.window_id == window by {
        let found = panes.filter(wanted);
        if found.contains(p) {
            panes.lemma_filter_contains_rev(wanted, p);
            let i = choose|i: int| 0 <= i < found.len() && found[i] == p;
            panes.lemma_filter_pred(wanted, i);
        }
        if panes.contains(p) && p.window_id == window {
            let i = choose|i: int| 0 <= i < panes.len() && panes[i] == p;
            panes.lemma_filter_contains(wanted, i);
        }
    }
}

/// Nothing is left of the panes of a window that was closed: they have no id, no
/// id leads to them, and they have no policy.
pub proof fn law_closed_panes_are_forgotten(s: StateView, panes: Seq<WezPane>, p: WezPane)
    requires
        s.backed(),
        panes.contains(p),
    ensures
        without_panes(s, panes).backed(),
        !without_panes(s, panes).wez_to_tmux.contains_key(p.pane_id),
        !without_panes(s, panes).remain_on_exit.contains_key(p.pane_id),
        forall|t: Seq<char>| #[trigger] without_panes(s, panes).wez_of(t) != Some(p.pane_id),
    decreases panes.len(),
{
    let first = panes[0].pane_id;
    let rest = panes.skip(1);
    let after = s.forget(first);
    law_ids_stay_backed(s, Seq::empty(), first);
    let i = choose|i: int| 0 <= i < panes.len() && panes[i] == p;
    if i > 0 {
        assert(rest[i - 1] == p);
        law_closed_panes_are_forgotten(after, rest, p);
    } else {
        lemma_stays_forgotten(after, rest, first);
    }
}

proof fn lemma_stays_forgotten(s: StateView, panes: Seq<WezPane>, pane: u64)
    requires
        s.backed(),
        !s.wez_to_tmux.contains_key(pane),
        !s.remain_on_exit.contains_key(pane),
    ensures
        without_panes(s, panes).backed(),
        !without_panes(s, panes).wez_to_tmux.contains_key(pane),
        !without_panes(s, panes).remain_on_exit.contains_key(pane),
    decreases panes.len(),
{
    if panes.len() > 0 {
        law_ids_stay_backed(s, Seq::empty(), panes[0].pane_id);
        lemma_stays_forgotten(s.forget(panes[0].pane_id), panes.skip(1), pane);
    }
}

} // verus!
