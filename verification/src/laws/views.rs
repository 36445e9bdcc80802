//! What the models of running values hold.

use crate::format::opt_str;
use crate::invocation::Invocation;
use crate::panes::{Env, WezPane};
use crate::state::State;
use crate::text::{opt_text, texts};
use crate::turn::{
    Effect, EffectView, Goal, GoalView, Next, NextView, Notice, OnPanes, OnPanesView, OnRun,
    OnRunView, OnWrite, Subcommand, Turn,
};
use vstd::prelude::*;

verus! {

/// The model of a list of strings has the characters of each, in order; the
/// model of an optional string is there where the string is.
pub proof fn law_models_of_texts(list: Seq<String>, s: String, t: &str, i: int)
    ensures
        texts(list).len() == list.len(),
        0 <= i < list.len() ==> texts(list)[i] == list[i]@,
        opt_text(Some(s)) == Some(s@),
        opt_text(None) is None,
        opt_str(Some(t)) == Some(t@),
        opt_str(None) is None,
{
}

/// The model of the state holds what the state holds.
pub proof fn law_model_of_the_state(s: State, w: u64, t: Seq<char>)
    ensures
        s@.tmux_to_wez == s.tmux_to_wez@,
        s@.wez_to_tmux.contains_key(w) == s.wez_to_tmux@.contains_key(w),
        s.wez_to_tmux@.contains_key(w) ==> s@.wez_to_tmux[w] == s.wez_to_tmux@[w]@,
        s@.next_pane == s.next_pane,
        s@.env_vars.contains_key(t) == s.env_vars@.contains_key(t),
        s.env_vars@.contains_key(t) ==> s@.env_vars[t] == s.env_vars@[t]@,
        s@.env_names == s.env_vars.names(),
        s@.remain_on_exit.contains_key(w) == s.remain_on_exit@.contains_key(w),
        s.remain_on_exit@.contains_key(w) ==> s@.remain_on_exit[w] == s.remain_on_exit@[w]@,
{
}

/// The model of the environment holds what the environment holds.
pub proof fn law_model_of_the_environment(env: Env)
    ensures
        env@.wezterm_pane == opt_text(env.wezterm_pane),
        env@.tmux_pane == opt_text(env.tmux_pane),
{
}

/// The model of a turn has the effects of the turn, in order, and goes on as the
/// turn does.
pub proof fn law_model_of_turns(t: Turn, i: int)
    ensures
        t@.effects.len() == t.effects@.len(),
        0 <= i < t.effects@.len() ==> t@.effects[i] == t.effects@[i]@,
        t@.next == t.next@,
{
}

/// The model of an effect is the same effect.
pub proof fn law_models_of_effects(text: String, notice: Notice<String, Vec<String>>)
    ensures
        Effect::<String, Vec<String>>::Print(text)@ == EffectView::Print(text@),
        Effect::<String, Vec<String>>::Line(text)@ == EffectView::Line(text@),
        Effect::<String, Vec<String>>::Warn(text)@ == EffectView::Warn(text@),
        Effect::<String, Vec<String>>::Save@ == EffectView::Save,
        Effect::<String, Vec<String>>::Note(notice)@ == EffectView::Note(notice@),
{
}

/// The model of a notice is the same notice.
pub proof fn law_models_of_notices(
    command: Subcommand,
    a: String,
    b: String,
    args: Vec<String>,
    pane: u64,
    exit: i32,
    literal: bool,
)
    ensures
        ({
            let view = |n: Notice<String, Vec<String>>| n@;
            &&& view(Notice::Unresolved { command, target: a }) == Notice::<
                Seq<char>,
                Seq<Seq<char>>,
            >::Unresolved { command, target: a@ }
            &&& view(Notice::SplitFailed { exit }) == Notice::<
                Seq<char>,
                Seq<Seq<char>>,
            >::SplitFailed { exit }
            &&& view(Notice::SyntheticId) == Notice::<Seq<char>, Seq<Seq<char>>>::SyntheticId
            &&& view(Notice::SetTitle { target: a, title: b }) == Notice::<
                Seq<char>,
                Seq<Seq<char>>,
            >::SetTitle { target: a@, title: b@ }
            &&& view(Notice::Policy { target: a, pane, value: b }) == Notice::<
                Seq<char>,
                Seq<Seq<char>>,
            >::Policy { target: a@, pane, value: b@ }
            &&& view(Notice::NothingToRun) == Notice::<Seq<char>, Seq<Seq<char>>>::NothingToRun
            &&& view(Notice::UsingBash { bash: a }) == Notice::<
                Seq<char>,
                Seq<Seq<char>>,
            >::UsingBash { bash: a@ }
            &&& view(Notice::NoBash) == Notice::<Seq<char>, Seq<Seq<char>>>::NoBash
            &&& view(Notice::Typing { target: a, pane, literal, text: b }) == Notice::<
                Seq<char>,
                Seq<Seq<char>>,
            >::Typing { target: a@, pane, literal, text: b@ }
            &&& view(Notice::NotPrinted) == Notice::<Seq<char>, Seq<Seq<char>>>::NotPrinted
            &&& view(Notice::SetVariable { name: a, value: b }) == Notice::<
                Seq<char>,
                Seq<Seq<char>>,
            >::SetVariable { name: a@, value: b@ }
            &&& view(Notice::KillPane { target: a, pane }) == Notice::<
                Seq<char>,
                Seq<Seq<char>>,
            >::KillPane { target: a@, pane }
            &&& view(Notice::KillPaneExit { exit }) == Notice::<
                Seq<char>,
                Seq<Seq<char>>,
            >::KillPaneExit { exit }
            &&& view(Notice::KillWindow { window: pane }) == Notice::<
                Seq<char>,
                Seq<Seq<char>>,
            >::KillWindow { window: pane }
            &&& view(Notice::KilledInWindow { pane, exit }) == Notice::<
                Seq<char>,
                Seq<Seq<char>>,
            >::KilledInWindow { pane, exit }
            &&& view(Notice::NoOp { subcommand: a }) == Notice::<
                Seq<char>,
                Seq<Seq<char>>,
            >::NoOp { subcommand: a@ }
            &&& view(Notice::Unhandled { subcommand: a, args }) == Notice::<
                Seq<char>,
                Seq<Seq<char>>,
            >::Unhandled { subcommand: a@, args: texts(args@) }
        }),
{
}

/// The model of a goal is the same goal.
pub proof fn law_models_of_goals(
    text: String,
    list: Vec<String>,
    panes: Vec<WezPane>,
    start: Option<String>,
    end: Option<String>,
    a: bool,
    b: bool,
)
    ensures
        ({
            let view = |g: Goal<String, Vec<String>, Vec<WezPane>>| g@;
            &&& view(Goal::Split { horizontal: a, print: b, format: text }) == GoalView::Split {
                horizontal: a,
                print: b,
                format: text@,
            }
            &&& view(Goal::SetPolicy { value: text }) == GoalView::SetPolicy { value: text@ }
            &&& view(Goal::Respawn { command: list }) == GoalView::Respawn { command: texts(list@) }
            &&& view(Goal::Type { tokens: list, literal: a }) == GoalView::Type {
                tokens: texts(list@),
                literal: a,
            }
            &&& view(Goal::Capture { print: a, start, end, escapes: b }) == GoalView::Capture {
                print: a,
                start: opt_text(start),
                end: opt_text(end),
                escapes: b,
            }
            &&& view(Goal::Kill) == GoalView::Kill
            &&& view(Goal::KillWindow { target: text, panes }) == GoalView::KillWindow {
                target: text@,
                panes: panes@,
            }
        }),
{
}

/// The model of a question is the same question.
pub proof fn law_models_of_questions(
    a: String,
    b: String,
    args: Vec<String>,
    panes: Vec<WezPane>,
    goal: Goal<String, Vec<String>, Vec<WezPane>>,
    on_panes: OnPanes<String, Vec<String>, Vec<WezPane>>,
    on_run: OnRun<String, Vec<WezPane>>,
    task: OnWrite,
    pane: u64,
    print: bool,
    code: i32,
)
    ensures
        ({
            let view = |n: Next<String, Vec<String>, Vec<WezPane>>| n@;
            &&& view(Next::List(on_panes)) == NextView::List(on_panes@)
            &&& view(Next::Run(args, on_run)) == NextView::Run(texts(args@), on_run@)
            &&& view(Next::Write { name: a, content: b, task }) == NextView::Write {
                name: a@,
                content: b@,
                task,
            }
            &&& view(Next::FindBash { pane }) == NextView::FindBash { pane }
            &&& view(Next::Exit(code)) == NextView::Exit(code)
        }),
        ({
            let view = |o: OnPanes<String, Vec<String>, Vec<WezPane>>| o@;
            &&& view(OnPanes::NewPane { format: a }) == OnPanesView::NewPane { format: a@ }
            &&& view(OnPanes::Target { target: a, goal }) == OnPanesView::Target {
                target: a@,
                goal: goal@,
            }
            &&& view(OnPanes::SplitShown { tmux_id: a, format: b }) == OnPanesView::SplitShown {
                tmux_id: a@,
                format: b@,
            }
            &&& view(OnPanes::Listing { target: a, format: b }) == OnPanesView::Listing {
                target: a@,
                format: b@,
            }
            &&& view(OnPanes::Message { current: a, format: b }) == OnPanesView::Message {
                current: a@,
                format: b@,
            }
            &&& view(OnPanes::Window { target: a }) == OnPanesView::Window { target: a@ }
        }),
        ({
            let view = |o: OnRun<String, Vec<WezPane>>| o@;
            &&& view(OnRun::Split { print, format: a }) == OnRunView::Split { print, format: a@ }
            &&& view(OnRun::Finish) == OnRunView::Finish
            &&& view(OnRun::Captured { print }) == OnRunView::Captured { print }
            &&& view(OnRun::Killed { pane }) == OnRunView::Killed { pane }
            &&& view(OnRun::KilledInWindow { pane, rest: panes }) == OnRunView::KilledInWindow {
                pane,
                rest: panes@,
            }
        }),
{
}

/// The model of an invocation is the same invocation.
pub proof fn law_models_of_invocations(subcommand: String, args: Vec<String>)
    ensures
        Invocation::<String, Vec<String>>::Version@ == Invocation::<
            Seq<char>,
            Seq<Seq<char>>,
        >::Version,
        Invocation::<String, Vec<String>>::Nothing@ == Invocation::<
            Seq<char>,
            Seq<Seq<char>>,
        >::Nothing,
        (Invocation::<String, Vec<String>>::Run { subcommand, args })@ == (Invocation::<
            Seq<char>,
            Seq<Seq<char>>,
        >::Run { subcommand: subcommand@, args: texts(args@) }),
{
}

} // verus!
