//! The presence synchronizer.
//!
//! The synchronizer is a state machine with two states: idle, with no
//! presence shown, and active, with the presence that the transport last
//! confirmed. Its caller runs the clock and the transport: on every tick it
//! hands in the names of the running processes and carries out the command
//! that comes back, and after an `Apply` it reports whether the transport
//! took the payload.

use crate::config::{Config, ConfigView};
use crate::presence::{payload_view, PayloadView, PresencePayload};
use std::sync::Arc;
use vstd::prelude::*;

verus! {

/// What the caller has to ask of the transport.
pub enum RpcCommand {
    /// Nothing: the presence shown is the one wanted.
    Keep,
    /// Show this payload, then report the outcome with
    /// [`DiscordRPC::confirm`].
    Apply(PresencePayload),
    /// Take the presence down. A failure of this call is ignored.
    Clear,
}

/// What an [`RpcCommand`] holds.
pub enum CommandView {
    Keep,
    Apply(PayloadView),
    Clear,
}

impl View for RpcCommand {
    type V = CommandView;

    open spec fn view(&self) -> CommandView {
        match self {
            RpcCommand::Keep => CommandView::Keep,
            RpcCommand::Apply(payload) => CommandView::Apply(payload@),
            RpcCommand::Clear => CommandView::Clear,
        }
    }
}

/// The outcome of looking at one running process.
pub enum SyncAttempt {
    /// No template is declared for the process.
    NoTemplate,
    /// The template of the process has no `name`.
    MissingName,
    /// The payload of the process is the one already shown.
    Unchanged,
    /// The payload of the process differs from what is shown.
    Changed(PresencePayload),
}

/// The result of one tick.
pub struct TickOutcome {
    /// What to ask of the transport.
    pub command: RpcCommand,
    /// The process that decided the command, if one did.
    pub process: Option<String>,
    /// The processes whose template was passed over for want of a `name`,
    /// in the order in which they were met. Each calls for one warning.
    pub warnings: Vec<String>,
}

/// The presence synchronizer.
pub struct DiscordRPC {
    config: Arc<Config>,
    last_set_rpc: Option<PresencePayload>,
}

/// The state of a [`DiscordRPC`]: its configuration, and the payload that
/// the transport last confirmed, or `None` while idle.
pub struct RpcView {
    pub config: ConfigView,
    pub applied: Option<PayloadView>,
}

/// The payload that a running process calls for: that of its template,
/// where it has one and the template has a `name`.
pub open spec fn payload_for(config: ConfigView, process: Seq<char>) -> Option<PayloadView> {
    match config.template(process) {
        Some(template) => PayloadView::of(template),
        None => None,
    }
}

/// The payload of the first process, in the order given, that calls for
/// one. Processes after it are not looked at.
pub open spec fn winner(config: ConfigView, processes: Seq<Seq<char>>) -> Option<PayloadView>
    decreases processes.len(),
{
    if processes.len() == 0 {
        None
    } else {
        match payload_for(config, processes[0]) {
            Some(payload) => Some(payload),
            None => winner(config, processes.drop_first()),
        }
    }
}

/// The first process, in the order given, that calls for a payload.
pub open spec fn winning_process(config: ConfigView, processes: Seq<Seq<char>>) -> Option<
    Seq<char>,
>
    decreases processes.len(),
{
    if processes.len() == 0 {
        None
    } else if payload_for(config, processes[0]) is Some {
        Some(processes[0])
    } else {
        winning_process(config, processes.drop_first())
    }
}

/// The processes met before the winner whose template has no `name`.
pub open spec fn skipped(config: ConfigView, processes: Seq<Seq<char>>) -> Seq<Seq<char>>
    decreases processes.len(),
{
    if processes.len() == 0 {
        Seq::empty()
    } else if payload_for(config, processes[0]) is Some {
        Seq::empty()
    } else if config.template(processes[0]) is Some {
        seq![processes[0]] + skipped(config, processes.drop_first())
    } else {
        skipped(config, processes.drop_first())
    }
}

/// The command of a tick, given what is shown and what is wanted.
pub open spec fn decide(applied: Option<PayloadView>, wanted: Option<PayloadView>) -> CommandView {
    match wanted {
        None => CommandView::Clear,
        Some(payload) => if applied == Some(payload) {
            CommandView::Keep
        } else {
            CommandView::Apply(payload)
        },
    }
}

/// What counts as shown after a tick: nothing once no process calls for a
/// payload, and otherwise what was shown before, until the transport
/// confirms a change.
pub open spec fn after_tick(applied: Option<PayloadView>, wanted: Option<PayloadView>) -> Option<
    PayloadView,
> {
    match wanted {
        None => None,
        Some(_) => applied,
    }
}

/// What counts as shown after the transport has answered an `Apply`.
pub open spec fn after_confirm(
    applied: Option<PayloadView>,
    payload: PayloadView,
    accepted: bool,
) -> Option<PayloadView> {
    if accepted {
        Some(payload)
    } else {
        applied
    }
}

/// The first process that yields a payload wins, whatever runs beside
/// it: the processes after it are never looked at, and no process before
/// the winner is warned about.
pub proof fn lemma_first_match_wins(
    config: ConfigView,
    first: Seq<char>,
    rest: Seq<Seq<char>>,
    other_rest: Seq<Seq<char>>,
)
    requires
        payload_for(config, first) is Some,
    ensures
        winner(config, seq![first] + rest) == payload_for(config, first),
        winner(config, seq![first] + rest) == winner(config, seq![first] + other_rest),
        skipped(config, seq![first] + rest) == Seq::<Seq<char>>::empty(),
{
}

/// A process that yields no payload is passed over: the winner is sought
/// among the processes after it.
pub proof fn lemma_no_match_is_passed_over(
    config: ConfigView,
    first: Seq<char>,
    rest: Seq<Seq<char>>,
)
    requires
        payload_for(config, first) is None,
    ensures
        winner(config, seq![first] + rest) == winner(config, rest),
{
    assert((seq![first] + rest).drop_first() == rest);
}

/// The winner is the payload of the process at `index`, where that process
/// yields a payload and no process before it does.
pub proof fn lemma_winner_is_first_match(
    config: ConfigView,
    processes: Seq<Seq<char>>,
    index: int,
)
    requires
        0 <= index < processes.len(),
        payload_for(config, processes[index]) is Some,
        forall|j: int| 0 <= j < index ==> payload_for(config, #[trigger] processes[j]) is None,
    ensures
        winner(config, processes) == payload_for(config, processes[index]),
    decreases index,
{
    if index > 0 {
        let rest = processes.drop_first();
        assert(rest[index - 1] == processes[index]);
        assert forall|j: int| 0 <= j < index - 1 implies payload_for(
            config,
            #[trigger] rest[j],
        ) is None by {
            assert(rest[j] == processes[j + 1]);
        }
        lemma_winner_is_first_match(config, rest, index - 1);
    }
}

/// The winner is the payload of the winning process, and there is the one
/// exactly when there is the other.
pub proof fn lemma_winner_belongs_to_winning_process(
    config: ConfigView,
    processes: Seq<Seq<char>>,
)
    ensures
        match winning_process(config, processes) {
            Some(process) => processes.contains(process) && payload_for(config, process) is Some
                && winner(config, processes) == payload_for(config, process),
            None => winner(config, processes) is None,
        },
    decreases processes.len(),
{
    if processes.len() > 0 {
        let rest = processes.drop_first();
        lemma_winner_belongs_to_winning_process(config, rest);
        if payload_for(config, processes[0]) is Some {
            assert(processes.contains(processes[0]));
        } else if winning_process(config, rest) is Some {
            let process = winning_process(config, rest)->0;
            let j = choose|j: int| 0 <= j < rest.len() && rest[j] == process;
            assert(processes[j + 1] == process);
        }
    }
}

/// There is no winner exactly when no process yields a payload. Then every
/// process that has a template is warned about once for each time it is
/// listed, and no other process is.
pub proof fn lemma_no_winner(config: ConfigView, processes: Seq<Seq<char>>)
    ensures
        winner(config, processes) is None <==> forall|j: int|
            0 <= j < processes.len() ==> payload_for(config, #[trigger] processes[j]) is None,
        winner(config, processes) is None ==> skipped(config, processes) == processes.filter(
            |process: Seq<char>| config.template(process) is Some,
        ),
    decreases processes.len(),
{
    let templated = |process: Seq<char>| config.template(process) is Some;
    reveal(Seq::filter);
    if processes.len() > 0 {
        let rest = processes.drop_first();
        lemma_no_winner(config, rest);
        assert forall|j: int| 0 <= j < rest.len() implies rest[j] == processes[j + 1] by {}
        if winner(config, processes) is None {
            assert forall|j: int| 0 <= j < processes.len() implies payload_for(
                config,
                #[trigger] processes[j],
            ) is None by {
                if j > 0 {
                    assert(rest[j - 1] == processes[j]);
                }
            }
            assert(processes == seq![processes[0]] + rest);
            Seq::filter_distributes_over_add(seq![processes[0]], rest, templated);
            assert(seq![processes[0]].filter(templated) == (if templated(processes[0]) {
                seq![processes[0]]
            } else {
                Seq::<Seq<char>>::empty()
            })) by {
                reveal_with_fuel(Seq::filter, 2);
                assert(seq![processes[0]].drop_last() == Seq::<Seq<char>>::empty());
                assert(seq![processes[0]].last() == processes[0]);
                assert(Seq::<Seq<char>>::empty().push(processes[0]) == seq![processes[0]]);
            }
        } else if payload_for(config, processes[0]) is None {
            let j = choose|j: int|
                0 <= j < rest.len() && !(payload_for(config, #[trigger] rest[j]) is None);
            assert(processes[j + 1] == rest[j]);
        }
    } else {
        assert(processes.filter(templated) == Seq::<Seq<char>>::empty());
    }
}

/// A payload that the transport has taken is not sent again: while the
/// same payload wins, every later tick keeps what is shown.
pub proof fn lemma_applied_payload_is_kept(applied: Option<PayloadView>, payload: PayloadView)
    ensures
        decide(after_confirm(after_tick(applied, Some(payload)), payload, true), Some(payload))
            == CommandView::Keep,
        decide(applied, Some(payload)) == CommandView::Keep ==> decide(
            after_tick(applied, Some(payload)),
            Some(payload),
        ) == CommandView::Keep,
{
}

/// A payload that the transport has refused is asked for again: what
/// counts as shown is what was shown before.
pub proof fn lemma_refused_payload_is_retried(applied: Option<PayloadView>, payload: PayloadView)
    requires
        decide(applied, Some(payload)) == CommandView::Apply(payload),
    ensures
        after_confirm(after_tick(applied, Some(payload)), payload, false) == applied,
        decide(
            after_confirm(after_tick(applied, Some(payload)), payload, false),
            Some(payload),
        ) == CommandView::Apply(payload),
{
}

/// Once no running process yields a payload, the tick clears the presence
/// and the synchronizer is idle, whatever was shown before.
pub proof fn lemma_no_match_clears(
    config: ConfigView,
    applied: Option<PayloadView>,
    processes: Seq<Seq<char>>,
)
    requires
        forall|j: int|
            0 <= j < processes.len() ==> payload_for(config, #[trigger] processes[j]) is None,
    ensures
        decide(applied, winner(config, processes)) == CommandView::Clear,
        after_tick(applied, winner(config, processes)) is None,
{
    lemma_no_winner(config, processes);
}

/// A template without `name` yields no payload, so it is never applied:
/// a tick that finds only such a process clears the presence and warns
/// about that process once.
pub proof fn lemma_nameless_template_is_never_applied(
    config: ConfigView,
    applied: Option<PayloadView>,
    process: Seq<char>,
)
    requires
        config.template(process) matches Some(template) && template.member("name"@) is None,
    ensures
        payload_for(config, process) is None,
        decide(applied, winner(config, seq![process])) == CommandView::Clear,
        skipped(config, seq![process]) == seq![process],
{
    assert(seq![process].drop_first() == Seq::<Seq<char>>::empty());
    assert(skipped(config, Seq::<Seq<char>>::empty()) == Seq::<Seq<char>>::empty());
    assert(winner(config, Seq::<Seq<char>>::empty()) is None);
}

/// Whatever a list of processes holds, the winner is the payload of one of
/// them, and every process warned about has a template without `name`.
pub proof fn lemma_winner_and_warnings_come_from_the_list(
    config: ConfigView,
    processes: Seq<Seq<char>>,
)
    ensures
        winner(config, processes) is Some ==> exists|j: int|
            0 <= j < processes.len() && winner(config, processes) == payload_for(
                config,
                #[trigger] processes[j],
            ),
        forall|k: int|
            0 <= k < skipped(config, processes).len() ==> config.template(
                #[trigger] skipped(config, processes)[k],
            ) is Some && payload_for(config, skipped(config, processes)[k]) is None,
    decreases processes.len(),
{
    if processes.len() > 0 {
        let rest = processes.drop_first();
        lemma_winner_and_warnings_come_from_the_list(config, rest);
        if payload_for(config, processes[0]) is Some {
            assert(winner(config, processes) == payload_for(config, processes[0]));
        } else {
            if winner(config, processes) is Some {
                let j = choose|j: int|
                    0 <= j < rest.len() && winner(config, rest) == payload_for(
                        config,
                        #[trigger] rest[j],
                    );
                assert(rest[j] == processes[j + 1]);
            }
            assert forall|k: int| 0 <= k < skipped(config, processes).len() implies config.template(
                #[trigger] skipped(config, processes)[k],
            ) is Some && payload_for(config, skipped(config, processes)[k]) is None by {
                if config.template(processes[0]) is Some {
                    if k > 0 {
                        assert(skipped(config, processes)[k] == skipped(config, rest)[k - 1]);
                    }
                }
            }
        }
    }
}

impl View for DiscordRPC {
    type V = RpcView;

    closed spec fn view(&self) -> RpcView {
        RpcView { config: self.config@, applied: payload_view(self.last_set_rpc) }
    }
}

impl DiscordRPC {
    /// A synchronizer over `config`, idle.
    pub fn new(config: Arc<Config>) -> (rpc: DiscordRPC)
        ensures
            rpc@ == (RpcView { config: config@, applied: None }),
    {
        DiscordRPC { config, last_set_rpc: None }
    }

    /// The payload that the transport last confirmed, or `None` while
    /// idle.
    pub fn last_set_rpc(&self) -> (shown: Option<&PresencePayload>)
        ensures
            match shown {
                Some(payload) => self@.applied == Some(payload@),
                None => self@.applied is None,
            },
    {
        self.last_set_rpc.as_ref()
    }

    /// Starts the watch: whatever was shown is forgotten, and the command
    /// that comes back is the clear with which every watch begins.
    pub fn start_process_watcher(&mut self) -> (command: RpcCommand)
        ensures
            command@ == CommandView::Clear,
            final(self)@ == (RpcView { config: old(self)@.config, applied: None }),
    {
        self.last_set_rpc = None;
        RpcCommand::Clear
    }

    /// Looks at one running process: whether it has a template, whether the
    /// template yields a payload, and whether that payload is already shown.
    pub fn try_sync_rpc_to_process(&self, process_name: &str) -> (attempt: SyncAttempt)
        ensures
            match attempt {
                SyncAttempt::NoTemplate => self@.config.template(process_name@) is None,
                SyncAttempt::MissingName => self@.config.template(process_name@) is Some
                    && payload_for(self@.config, process_name@) is None,
                SyncAttempt::Unchanged => payload_for(self@.config, process_name@) is Some
                    && self@.applied == payload_for(self@.config, process_name@),
                SyncAttempt::Changed(payload) => payload_for(self@.config, process_name@) == Some(
                    payload@,
                ) && self@.applied != Some(payload@),
            },
    {
        let template = match self.config.get_config_rpc_value(process_name) {
            Some(template) => template,
            None => return SyncAttempt::NoTemplate,
        };
        let payload = match PresencePayload::from_template(template) {
            Some(payload) => payload,
            None => return SyncAttempt::MissingName,
        };
        let unchanged = match &self.last_set_rpc {
            Some(shown) => shown.same(&payload),
            None => false,
        };
        if unchanged {
            SyncAttempt::Unchanged
        } else {
            SyncAttempt::Changed(payload)
        }
    }

    /// One tick. `processes` names the running processes in the order in
    /// which they were enumerated. The first of them that yields a payload
    /// decides: `Keep` where that payload is the one shown, `Apply` where it
    /// is not. Where none yields a payload the command is `Clear` and the
    /// synchronizer goes idle.
    pub fn tick(&mut self, processes: &Vec<String>) -> (outcome: TickOutcome)
        ensures
            final(self)@.config == old(self)@.config,
            final(self)@.applied == after_tick(
                old(self)@.applied,
                winner(old(self)@.config, processes.deep_view()),
            ),
            outcome.command@ == decide(
                old(self)@.applied,
                winner(old(self)@.config, processes.deep_view()),
            ),
            outcome.warnings.deep_view() == skipped(old(self)@.config, processes.deep_view()),
            outcome.process.deep_view() == winning_process(
                old(self)@.config,
                processes.deep_view(),
            ),
    {
        let ghost before = self@;
        let ghost names = processes.deep_view();
        let mut warnings: Vec<String> = Vec::new();
        let mut i: usize = 0;
        assert(names.subrange(0, names.len() as int) == names);
        assert(warnings.deep_view() == Seq::<Seq<char>>::empty());
        while i < processes.len()
            invariant
                i <= processes.len(),
                names == processes.deep_view(),
                self@ == before,
                winner(before.config, names) == winner(
                    before.config,
                    names.subrange(i as int, names.len() as int),
                ),
                skipped(before.config, names) == warnings.deep_view() + skipped(
                    before.config,
                    names.subrange(i as int, names.len() as int),
                ),
                winning_process(before.config, names) == winning_process(
                    before.config,
                    names.subrange(i as int, names.len() as int),
                ),
            decreases processes.len() - i,
        {
            let ghost rest = names.subrange(i as int, names.len() as int);
            let ghost noted = warnings.deep_view();
            assert(rest[0] == processes[i as int]@);
            assert(rest.drop_first() == names.subrange(i + 1, names.len() as int));
            match self.try_sync_rpc_to_process(processes[i].as_str()) {
                SyncAttempt::NoTemplate => {},
                SyncAttempt::MissingName => {
                    warnings.push(processes[i].clone());
                    assert(warnings.deep_view() == noted.push(rest[0]));
                },
                SyncAttempt::Unchanged => {
                    return TickOutcome {
                        command: RpcCommand::Keep,
                        process: Some(processes[i].clone()),
                        warnings,
                    };
                },
                SyncAttempt::Changed(payload) => {
                    return TickOutcome {
                        command: RpcCommand::Apply(payload),
                        process: Some(processes[i].clone()),
                        warnings,
                    };
                },
            }
            i += 1;
        }
        self.last_set_rpc = None;
        TickOutcome { command: RpcCommand::Clear, process: None, warnings }
    }

    /// Takes note of the transport's answer to an `Apply`. An accepted
    /// payload becomes the one shown. A refused one changes nothing, so
    /// that the next tick asks again.
    pub fn confirm(&mut self, payload: PresencePayload, accepted: bool)
        ensures
            final(self)@.config == old(self)@.config,
            final(self)@.applied == after_confirm(old(self)@.applied, payload@, accepted),
    {
        if accepted {
            self.last_set_rpc = Some(payload);
        }
    }
}

} // verus!
