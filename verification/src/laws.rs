//! What holds of every run of the login command.

use crate::command::{IntentView, LoginCommandView};
use crate::error::LoginErrorView;
use crate::flow::{
    begin, go, keep, next, poll_reply, proceed, started, DirectiveView, EventView, PendingView,
    PhaseView, PollPolicy, RequestView, WAITING_MARKER, WAITING_NOTICE,
};
use crate::json::{pretty_text, JsonItem};
use crate::model::{LoginConnectionView, TokenInfoView};
use crate::script::{continued, transcript};
use crate::selector::Selection;
use crate::store::RootStatus;
use vstd::prelude::*;

verus! {

/// A directive that prints nothing.
pub open spec fn silent(request: RequestView) -> DirectiveView {
    DirectiveView { lines: Seq::empty(), request }
}

/// A run with more than one of the status, get-device-code and
/// check-device-code options hands out a single directive, whatever the
/// replies would be: it ends the run with `InvalidArgumentCombination`. So
/// nothing is asked of a server and nothing is written.
pub proof fn lemma_conflicting_options_end_the_run(
    command: LoginCommandView,
    policy: PollPolicy,
    events: Seq<EventView>,
)
    requires
        command.intents_given() >= 2,
    ensures
        transcript(command, policy, events) == seq![
            silent(RequestView::Abort(LoginErrorView::InvalidArgumentCombination)),
        ],
        forall|i: int|
            0 <= i < transcript(command, policy, events).len() ==> {
                let request = (#[trigger] transcript(command, policy, events)[i]).request;
                !request.is_network() && !request.is_file_write()
            },
{
}

/// The options are an error exactly when more than one of the three is
/// given.
pub proof fn lemma_intent_fails_on_conflict_only(command: LoginCommandView)
    ensures
        command.intent() is Err <==> command.intents_given() >= 2,
        command.intent() is Err ==> command.intent() == Err::<IntentView, LoginErrorView>(
            LoginErrorView::InvalidArgumentCombination,
        ),
{
}

/// A run that has ended stays ended: every further event gets the same
/// final directive and nothing to print.
pub proof fn lemma_ended_runs_stay_ended(
    command: LoginCommandView,
    policy: PollPolicy,
    phase: PhaseView,
    event: EventView,
)
    requires
        phase is Finished || phase is Failed,
    ensures
        next(command, policy, phase, event).0 == phase,
        next(command, policy, phase, event).1.lines == Seq::<Seq<char>>::empty(),
        next(command, policy, phase, event).1.request.is_final(),
{
}

/// A login with an explicit method begins with that method, whatever else
/// the options hold.
pub proof fn lemma_explicit_method_begins_the_login(command: LoginCommandView)
    requires
        command.intent() == Ok::<IntentView, LoginErrorView>(IntentView::Login),
        command.method is Some,
    ensures
        command.auth_method() == Selection::Use(command.method->0),
        started(command) == begin(command, command.method->0),
{
}

/// A single check that finds no token prints the waiting marker and ends
/// the run. The store is not touched.
pub proof fn lemma_unready_check_prints_the_marker(
    command: LoginCommandView,
    policy: PollPolicy,
    events: Seq<EventView>,
)
    requires
        command.intent() is Ok,
        command.intent()->Ok_0 is CheckDeviceCode,
        events.len() > 0,
        poll_reply(events[0]) is Unready,
    ensures
        transcript(command, policy, events) == seq![
            silent(RequestView::PollToken { device_code: command.intent()->Ok_0->0 }),
            DirectiveView { lines: seq![WAITING_MARKER@], request: RequestView::Finish },
        ],
{
    let (phase, first) = started(command);
    assert(phase is CheckingCode);
    let (after, second) = next(command, policy, phase, events[0]);
    assert(second.request.is_final());
    assert(continued(command, policy, phase, events) =~= seq![second]);
}

/// A single check that finds a token prints the answer and takes the
/// credential made of it to the store.
pub proof fn lemma_ready_check_keeps_the_token(
    command: LoginCommandView,
    policy: PollPolicy,
    info: TokenInfoView,
    shown: Seq<char>,
)
    requires
        command.intent() is Ok,
        command.intent()->Ok_0 is CheckDeviceCode,
        info.token is Some,
    ensures
        pretty_text(info.members()) == Some(shown) ==> next(
            command,
            policy,
            started(command).0,
            EventView::TokenPolled(info),
        ) == keep(seq![shown], command.connection_for_token(info)),
{
}

/// A credential made of a token of the authorization server is stored with
/// four members: none of them is about the registry.
pub proof fn lemma_token_credential_has_no_registry(
    command: LoginCommandView,
    info: TokenInfoView,
)
    ensures
        command.connection_for_token(info).members() == seq![
            ("url"@, JsonItem::Text(command.url())),
            ("danger_accept_invalid_certs"@, JsonItem::Flag(command.insecure)),
            ("token"@, JsonItem::Text(info.token_or_empty())),
            ("expiration"@, JsonItem::Text(info.expiration_or_empty())),
        ],
{
    assert(command.connection_for_token(info).members() =~= seq![
        ("url"@, JsonItem::Text(command.url())),
        ("danger_accept_invalid_certs"@, JsonItem::Flag(command.insecure)),
        ("token"@, JsonItem::Text(info.token_or_empty())),
        ("expiration"@, JsonItem::Text(info.expiration_or_empty())),
    ]);
}

/// Once the configuration root is there, a credential goes to the file as
/// its pretty-printed JSON and as nothing else.
pub proof fn lemma_credential_is_written_as_its_json(
    connection: LoginConnectionView,
    stored: Seq<char>,
)
    ensures
        pretty_text(connection.members()) == Some(stored) ==> proceed(
            PendingView::Write(connection),
        ) == go(PhaseView::Writing, RequestView::WriteCredentials { text: stored }),
{
}

/// The status run prints the text of the credential file as it was read,
/// in one line and unchanged.
pub proof fn lemma_status_prints_what_was_read(
    command: LoginCommandView,
    policy: PollPolicy,
    root: Seq<char>,
    text: Seq<char>,
)
    requires
        command.intent() == Ok::<IntentView, LoginErrorView>(IntentView::Status),
    ensures
        transcript(
            command,
            policy,
            seq![
                EventView::StoreLocated { root, status: RootStatus::Directory },
                EventView::CredentialsRead(text),
            ],
        ) == seq![
            silent(RequestView::LocateStore),
            silent(RequestView::ReadCredentials),
            DirectiveView { lines: seq![text], request: RequestView::Finish },
        ],
{
    let events = seq![
        EventView::StoreLocated { root, status: RootStatus::Directory },
        EventView::CredentialsRead(text),
    ];
    let (first_phase, first) = started(command);
    let (second_phase, second) = next(command, policy, first_phase, events[0]);
    assert(second_phase is Reading);
    let rest = events.drop_first();
    assert(rest[0] == EventView::CredentialsRead(text));
    let (third_phase, third) = next(command, policy, second_phase, rest[0]);
    assert(third.request.is_final());
    assert(continued(command, policy, second_phase, rest) =~= seq![third]);
    assert(continued(command, policy, first_phase, events) =~= seq![second, third]);
}

/// How many checks are made from `elapsed` seconds of waiting on when none
/// of them finds a token: one now, and those that are left after a pause.
pub open spec fn checks_left(policy: PollPolicy, elapsed: int) -> nat
    decreases policy.timeout_secs + policy.interval_secs - elapsed,
{
    if policy.interval_secs == 0 || elapsed > policy.timeout_secs {
        0
    } else {
        1 + checks_left(policy, elapsed + policy.interval_secs)
    }
}

/// The number of checks in closed form.
pub proof fn lemma_checks_left(policy: PollPolicy, elapsed: int)
    requires
        policy.interval_secs > 0,
        0 <= elapsed <= policy.timeout_secs,
    ensures
        checks_left(policy, elapsed) == (policy.timeout_secs - elapsed) / (
        policy.interval_secs as int) + 1,
    decreases policy.timeout_secs - elapsed,
{
    let interval = policy.interval_secs as int;
    let rest = policy.timeout_secs - elapsed;
    if elapsed + interval > policy.timeout_secs {
        assert(checks_left(policy, elapsed + interval) == 0);
        assert(rest / interval == 0) by (nonlinear_arith)
            requires
                0 <= rest < interval,
        ;
    } else {
        lemma_checks_left(policy, elapsed + interval);
        assert(rest / interval == (rest - interval) / interval + 1) by (nonlinear_arith)
            requires
                0 < interval <= rest,
        ;
    }
}

/// With a check every ten seconds for fifteen minutes, ninety-one checks
/// are made before the run gives up.
pub proof fn lemma_nominal_checks()
    ensures
        checks_left(PollPolicy { interval_secs: 10, timeout_secs: 900 }, 0) == 91,
{
    lemma_checks_left(PollPolicy { interval_secs: 10, timeout_secs: 900 }, 0);
}

/// Whether the first `checks` checks that `events` answer find no token.
/// The replies to the checks stand at the even places; the ends of the
/// pauses between them at the odd ones.
pub open spec fn no_token_in(events: Seq<EventView>, checks: nat) -> bool {
    &&& events.len() >= 2 * checks
    &&& forall|i: int|
        0 <= i < 2 * checks && i % 2 == 0 ==> poll_reply(#[trigger] events[i]) is Unready
}

/// What a run that waits for the authorization hands out when no check
/// finds a token: a pause and a further check in turn, and after the last
/// pause the end of the run with `Timeout`.
pub open spec fn waiting_in_vain(
    policy: PollPolicy,
    device_code: Seq<char>,
    checks: nat,
) -> Seq<DirectiveView>
    decreases checks,
{
    if checks == 0 {
        Seq::empty()
    } else if checks == 1 {
        seq![
            DirectiveView {
                lines: seq![WAITING_NOTICE@],
                request: RequestView::Wait { seconds: policy.interval_secs },
            },
            silent(RequestView::Abort(LoginErrorView::Timeout)),
        ]
    } else {
        seq![
            DirectiveView {
                lines: seq![WAITING_NOTICE@],
                request: RequestView::Wait { seconds: policy.interval_secs },
            },
            silent(RequestView::PollToken { device_code }),
        ] + waiting_in_vain(policy, device_code, (checks - 1) as nat)
    }
}

/// A run that waits for the authorization, and whose checks find no token
/// until the time is up, hands out pauses and checks and then ends with
/// `Timeout`.
pub proof fn lemma_unanswered_checks_time_out(
    command: LoginCommandView,
    policy: PollPolicy,
    device_code: Seq<char>,
    elapsed: int,
    events: Seq<EventView>,
)
    requires
        policy.interval_secs > 0,
        0 <= elapsed <= policy.timeout_secs,
        no_token_in(events, checks_left(policy, elapsed)),
    ensures
        continued(
            command,
            policy,
            PhaseView::AwaitingAuthorization { device_code, elapsed_secs: elapsed },
            events,
        ) == waiting_in_vain(policy, device_code, checks_left(policy, elapsed)),
    decreases policy.timeout_secs - elapsed,
{
    let checks = checks_left(policy, elapsed);
    let waiting = PhaseView::AwaitingAuthorization { device_code, elapsed_secs: elapsed };
    let pausing = PhaseView::Pausing { device_code, elapsed_secs: elapsed };
    let pause = DirectiveView {
        lines: seq![WAITING_NOTICE@],
        request: RequestView::Wait { seconds: policy.interval_secs },
    };
    assert(checks >= 1);
    assert(poll_reply(events[0]) is Unready);
    assert(next(command, policy, waiting, events[0]) == (pausing, pause));
    let rest = events.drop_first();
    assert(rest.len() >= 1);
    let then = elapsed + policy.interval_secs;
    if then > policy.timeout_secs {
        assert(checks_left(policy, then) == 0);
        let end = silent(RequestView::Abort(LoginErrorView::Timeout));
        assert(next(command, policy, pausing, rest[0]).1 == end);
        assert(continued(command, policy, pausing, rest) =~= seq![end]);
        assert(continued(command, policy, waiting, events) =~= seq![pause, end]);
    } else {
        let again = PhaseView::AwaitingAuthorization { device_code, elapsed_secs: then };
        let check = silent(RequestView::PollToken { device_code });
        assert(next(command, policy, pausing, rest[0]) == (again, check));
        let later = rest.drop_first();
        assert(checks_left(policy, then) == checks - 1);
        assert(no_token_in(later, checks_left(policy, then))) by {
            assert forall|i: int| 0 <= i < 2 * (checks - 1) && i % 2 == 0 implies poll_reply(
                #[trigger] later[i],
            ) is Unready by {
                assert(later[i] == events[i + 2]);
            }
        }
        lemma_unanswered_checks_time_out(command, policy, device_code, then, later);
        assert(continued(command, policy, pausing, rest) =~= seq![check] + continued(
            command,
            policy,
            again,
            later,
        ));
        assert(continued(command, policy, waiting, events) =~= seq![pause, check] + continued(
            command,
            policy,
            again,
            later,
        ));
    }
}

/// Waiting in vain takes a pause for every check, ends with `Timeout`,
/// and never touches the store.
pub proof fn lemma_waiting_in_vain(policy: PollPolicy, device_code: Seq<char>, checks: nat)
    requires
        checks >= 1,
    ensures
        waiting_in_vain(policy, device_code, checks).len() == 2 * checks,
        waiting_in_vain(policy, device_code, checks).last() == silent(
            RequestView::Abort(LoginErrorView::Timeout),
        ),
        forall|i: int|
            0 <= i < 2 * checks ==> {
                let request = (#[trigger] waiting_in_vain(policy, device_code, checks)[i]).request;
                !request.is_file_write() && !(request is LocateStore)
            },
    decreases checks,
{
    if checks > 1 {
        lemma_waiting_in_vain(policy, device_code, (checks - 1) as nat);
    }
}

/// A login by device code whose checks find no token until the time is up
/// ends with `Timeout`, and the store is never touched. With a check every
/// ten seconds for fifteen minutes that is the case after ninety-one
/// checks.
pub proof fn lemma_unauthorized_login_times_out(
    command: LoginCommandView,
    policy: PollPolicy,
    events: Seq<EventView>,
)
    requires
        started(command).0 is RequestingCode,
        policy.interval_secs > 0,
        events.len() >= 1,
        events[0] is DeviceCodeIssued,
        no_token_in(events.drop_first(), checks_left(policy, 0)),
    ensures
        transcript(command, policy, events).len() == 2 + 2 * checks_left(policy, 0),
        transcript(command, policy, events).last().request == RequestView::Abort(
            LoginErrorView::Timeout,
        ),
        forall|i: int|
            0 <= i < transcript(command, policy, events).len() ==> {
                let request = (#[trigger] transcript(command, policy, events)[i]).request;
                !request.is_file_write() && !(request is LocateStore)
            },
{
    let checks = checks_left(policy, 0);
    let (first_phase, first) = started(command);
    let item = events[0]->DeviceCodeIssued_0;
    let (waiting, second) = next(command, policy, first_phase, events[0]);
    let rest = events.drop_first();
    lemma_unanswered_checks_time_out(command, policy, item.device_code, 0, rest);
    lemma_waiting_in_vain(policy, item.device_code, checks);
    let tail = waiting_in_vain(policy, item.device_code, checks);
    assert(continued(command, policy, first_phase, events) =~= seq![second] + tail);
    let whole = transcript(command, policy, events);
    assert(whole =~= seq![first, second] + tail);
    assert forall|i: int| 0 <= i < whole.len() implies {
        let request = (#[trigger] whole[i]).request;
        !request.is_file_write() && !(request is LocateStore)
    } by {
        if i >= 2 {
            assert(whole[i] == tail[i - 2]);
        }
    }
}

} // verus!
